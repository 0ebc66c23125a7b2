use terminus::{text, Alignment, AppState, Buffer, Context, Point, Rect, Size, View, ViewExtensions, ViewId};

fn assert_rendered_view<V: View>(view: V, expected: Vec<&str>, buffer_width: u16, buffer_height: u16) {
    let mut buffer = Buffer::new(buffer_width, buffer_height);
    let context = Context::new(Rect { point: Point::zero(), size: buffer.size });
    view.render(&mut ViewId::empty(), context, &mut AppState::new(), &mut buffer);
    assert_eq!(buffer.as_plain_str(), expected.join("\n"));
}

#[test]
fn test_frame_size_with_min_constraints() {
    let frame = text("Hello").frame(Some(10), Some(5), None, None, Alignment::TOP_LEFT);
    let proposed_size = Size::new(100, 100);
    let size = frame.size(proposed_size);
    assert_eq!(size, Size::new(10, 5));
}

#[test]
fn test_frame_size_with_max_constraints() {
    let frame = text("Hello, world!").frame(None, None, Some(5), Some(1), Alignment::TOP_LEFT);
    let proposed_size = Size::new(100, 100);
    let size = frame.size(proposed_size);

    assert_eq!(size.width, 5);
    assert_eq!(size.height, 1);
}

#[test]
fn test_frame_size_within_constraints() {
    let frame = text("Hello").frame(Some(3), Some(1), Some(10), Some(2), Alignment::TOP_LEFT);
    let proposed_size = Size::max();
    let size = frame.size(proposed_size);
    assert_eq!(size, Size::new(5, 1));
}

#[test]
fn test_frame_size_with_no_constraints() {
    let frame = text("Hello").frame(None, None, None, None, Alignment::TOP_LEFT);
    let proposed_size = Size::new(20, 10);
    let size = frame.size(proposed_size);
    assert_eq!(size, Size::new(5, 1));
}

#[test]
fn test_frame_max_width_takes_up_entire_proposed_width() {
    let frame = text("Hello").frame(None, None, Some(u16::MAX), None, Alignment::TOP_LEFT);
    let proposed_size = Size::new(20, 2);
    let size = frame.size(proposed_size);
    assert_eq!(size, Size::new(20, 1));
}

#[test]
fn test_frame_max_height_takes_up_entire_proposed_height() {
    let frame = text("Hello").frame(None, None, None, Some(u16::MAX), Alignment::TOP_LEFT);
    let proposed_size = Size::new(20, 8);
    let size = frame.size(proposed_size);
    assert_eq!(size, Size::new(5, 8));
}

#[test]
fn test_render_frame_with_text() {
    let frame = text("HELLO WORLD").frame(None, None, Some(5), None, Alignment::TOP_LEFT);
    let expected_output = vec!["HELLO      "];
    assert_rendered_view(frame, expected_output, 11, 1);
}

#[test]
fn test_frame_max_width_with_alignment() {
    let frame = text("HELLO!").frame(None, None, Some(u16::MAX), None, Alignment::CENTER);
    let proposed_size = Size::new(20, 1);
    let size = frame.size(proposed_size);
    assert_eq!(size, Size::new(20, 1));

    let expected_output = vec!["       HELLO!       "];
    assert_rendered_view(frame, expected_output, 20, 1);
}

#[test]
fn test_frame_max_width_with_right_alignment() {
    let frame = text("WOW").frame(None, None, Some(u16::MAX), None, Alignment::RIGHT).border();
    let proposed_size = Size::new(10, 3);
    let size = frame.size(proposed_size);
    assert_eq!(size, Size::new(10, 3));

    let expected_output = vec![
        "┌────────┐", // 1
        "│    WOW │", // 2
        "└────────┘", // 3
    ];
    assert_rendered_view(frame, expected_output, 10, 3);
}

#[test]
fn test_frame_vertical_and_horizontal_alignment() {
    let frame = text("WOW")
        .frame(None, None, Some(u16::MAX), Some(u16::MAX), Alignment::CENTER)
        .border();
    let proposed_size = Size::new(9, 5);
    let size = frame.size(proposed_size);
    assert_eq!(size, Size::new(9, 5));

    let expected_output = vec![
        "┌───────┐", // 1
        "│       │", // 2
        "│  WOW  │", // 3
        "│       │", // 4
        "└───────┘", // 5
    ];
    assert_rendered_view(frame, expected_output, 9, 5);
}

#[test]
fn test_frame_vertical_and_horizontal_alignment_bottom_right() {
    let view = text("WOW")
        .frame(None, None, Some(u16::MAX), Some(u16::MAX), Alignment::BOTTOM_RIGHT)
        .border();
    let proposed_size = Size::new(9, 5);
    let size = view.size(proposed_size);
    assert_eq!(size, Size::new(9, 5));

    let expected_output = vec![
        "┌───────┐", // 1
        "│       │", // 2
        "│       │", // 3
        "│   WOW │", // 4
        "└───────┘", // 5
    ];
    assert_rendered_view(view, expected_output, 9, 5);
}

#[test]
fn frame_minimum_wins_over_smaller_maximum() {
    let frame = text("Hello").frame(Some(8), None, Some(4), None, Alignment::TOP_LEFT);
    assert_eq!(frame.size(Size::new(20, 3)), Size::new(8, 1));
}

#[test]
fn frame_helpers_fill_as_named() {
    assert_eq!(text("ab").fill().size(Size::new(7, 4)), Size::new(7, 4));
    assert_eq!(text("ab").fill_horizontally().size(Size::new(7, 4)), Size::new(7, 1));
    assert_eq!(text("ab").fill_vertically().size(Size::new(7, 4)), Size::new(2, 4));
    assert_eq!(text("ab").min_width(5).size(Size::new(7, 4)), Size::new(5, 1));
    assert_eq!(text("ab").min_height(3).size(Size::new(7, 4)), Size::new(2, 3));
}

#[test]
fn center_places_text_in_the_middle() {
    let view = text("ab").center();
    assert_rendered_view(view, vec!["     ", "     ", " ab  ", "     ", "     "], 5, 5);
}

#[test]
fn center_vertically_then_horizontally() {
    assert_rendered_view(text("x").center_vertically(), vec!["   ", "x  ", "   "], 3, 3);
    assert_rendered_view(text("x").center_horizontally(), vec![" x ", "   ", "   "], 3, 3);
}
