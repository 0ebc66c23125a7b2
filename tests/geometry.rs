use terminus::{Direction, Point, Rect, Size};

#[test]
fn test_rect_inset_by() {
    let rect = Rect::new(10, 10, 30, 20);
    let inset_rect = rect.inset_by(5, 5, 5, 5);
    assert_eq!(inset_rect.point.x, 15);
    assert_eq!(inset_rect.point.y, 15);
    assert_eq!(inset_rect.size.width, 20);
    assert_eq!(inset_rect.size.height, 10);
}

#[test]
fn test_rect_outset_by() {
    let rect = Rect::new(10, 10, 30, 20);
    let outset_rect = rect.outset_by(5, 5, 5, 5);
    assert_eq!(outset_rect.point.x, 5);
    assert_eq!(outset_rect.point.y, 5);
    assert_eq!(outset_rect.size.width, 40);
    assert_eq!(outset_rect.size.height, 30);
}

#[test]
fn size_inset_example() {
    let size = Size { width: 10, height: 8 };
    assert_eq!(size.inset_by(1, 1, 1, 1), Size { width: 8, height: 6 });
}

#[test]
fn size_outset_example() {
    let size = Size { width: 10, height: 8 };
    assert_eq!(size.outset_by(1, 1, 1, 1), Size { width: 12, height: 10 });
}

#[test]
fn size_min_example() {
    let size = Size { width: 10, height: 8 };
    let proposed = Size { width: 12, height: 10 };
    assert_eq!(size.min(proposed), Size { width: 10, height: 8 });
    assert_eq!(Size::new(3, 20).min(Size::new(7, 4)), Size::new(3, 4));
}

#[test]
fn inset_then_outset_round_trips() {
    for (w, h, l, r, t, b) in [(50u16, 60u16, 0u16, 24u16, 3u16, 7u16), (99, 50, 24, 24, 24, 24), (10, 10, 5, 5, 0, 10)] {
        let s = Size::new(w, h);
        assert_eq!(s.inset_by(l, r, t, b).outset_by(l, r, t, b), s);
    }
}

#[test]
fn outset_then_inset_round_trips() {
    for (w, h, l, r, t, b) in [(50u16, 60u16, 0u16, 24u16, 3u16, 7u16), (99, 50, 24, 24, 24, 24), (0, 0, 1, 2, 3, 4)] {
        let s = Size::new(w, h);
        assert_eq!(s.outset_by(l, r, t, b).inset_by(l, r, t, b), s);
    }
}

#[test]
fn inset_clamps_at_zero() {
    assert_eq!(Size::new(3, 1).inset_by(2, 2, 1, 1), Size::new(0, 0));
}

#[test]
fn outset_clamps_at_largest_value() {
    assert_eq!(Size::max().outset_by(1, 0, 0, 1), Size::max());
}

#[test]
fn rect_edges() {
    let rect = Rect::new(3, 4, 10, 2);
    assert_eq!(rect.left(), 3);
    assert_eq!(rect.top(), 4);
    assert_eq!(rect.right(), 13);
    assert_eq!(rect.bottom(), 6);
    assert_eq!(Rect::new(65530, 0, 10, 1).right(), u16::MAX);
}

#[test]
fn rect_offset_keeps_size() {
    let rect = Rect::new(1, 2, 5, 6).offset(3, 4);
    assert_eq!(rect, Rect::new(4, 6, 5, 6));
    assert_eq!(Point::zero(), Point { x: 0, y: 0 });
    assert_eq!(Size::zero(), Size::new(0, 0));
}

#[test]
fn direction_next_flips() {
    assert_eq!(Direction::Horizontal.next(), Direction::Vertical);
    assert_eq!(Direction::Vertical.next(), Direction::Horizontal);
}
