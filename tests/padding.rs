use terminus::{text, AppState, Buffer, Context, Point, Rect, Size, View, ViewExtensions, ViewId};

fn assert_rendered_view<V: View>(view: V, expected: Vec<&str>, buffer_width: u16, buffer_height: u16) {
    let mut buffer = Buffer::new(buffer_width, buffer_height);
    let context = Context::new(Rect { point: Point::zero(), size: buffer.size });
    view.render(&mut ViewId::empty(), context, &mut AppState::new(), &mut buffer);
    assert_eq!(buffer.as_plain_str(), expected.join("\n"));
}

#[test]
fn test_padding() {
    let view = text("Padded View").padding(2);
    let expected_output = vec![
        "               ", //
        "               ", //
        "  Padded View  ", //
        "               ", //
        "               ", //
    ];
    assert_eq!(view.size(Size::max()), Size { width: 15, height: 5 });
    assert_rendered_view(view, expected_output, 15, 5);
}

#[test]
fn padding_on_one_axis() {
    assert_eq!(text("ab").padding_h(3).size(Size::max()), Size::new(8, 1));
    assert_eq!(text("ab").padding_v(3).size(Size::max()), Size::new(2, 7));
    assert_rendered_view(text("ab").padding_h(1), vec![" ab "], 4, 1);
}

#[test]
fn padding_keeps_the_inherited_color() {
    let view = text("a").padding(1).red();
    let mut buffer = Buffer::new(3, 3);
    view.render(&mut ViewId::empty(), Context::new(Rect::new(0, 0, 3, 3)), &mut AppState::new(), &mut buffer);
    assert_eq!(buffer.get(1, 1).fg, terminus::Color::Red);
    assert_eq!(buffer.get(0, 0).fg, terminus::Color::Reset);
}
