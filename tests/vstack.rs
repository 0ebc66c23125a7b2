use terminus::{hstack, text, vstack, Alignment, AppState, Buffer, Context, HorizontalAlignment, Point, Rect, Size, VerticalAlignment, View, ViewExtensions, ViewId};

fn assert_rendered_view<V: View>(view: V, expected: Vec<&str>, buffer_width: u16, buffer_height: u16) {
    let mut buffer = Buffer::new(buffer_width, buffer_height);
    let context = Context::new(Rect { point: Point::zero(), size: buffer.size });
    view.render(&mut ViewId::empty(), context, &mut AppState::new(), &mut buffer);
    assert_eq!(buffer.as_plain_str(), expected.join("\n"));
}

#[test]
fn vstack_test_vertical_stack_sizing() {
    let stack = vstack(("hello", "1234567", "cool"));

    let size = stack.size(Size::max());

    assert_eq!(size.width, 7); // The maximum width of the children
    assert_eq!(size.height, 3); // Sum of heights + spacing
}

#[test]
fn vstack_test_vertical_stack_rendering() {
    let stack = vstack(("hello", "1234567", "cool"));
    let expected_output = vec![
        "hello  ", //
        "1234567", //
        "cool   ", //
    ];
    assert_rendered_view(stack, expected_output, 7, 3);
}

#[test]
fn vstack_test_bottom_left_alignment_in_vstack() {
    let stack = vstack((
        text("Centered Text").frame(None, None, Some(u16::MAX), Some(u16::MAX), Alignment::BOTTOM_LEFT),
        vstack((text("Bottom Text"), text("Bottom Text"))),
    ));

    let expected_output = vec![
        "             ", // Empty space for vertical centering
        "             ", // Empty space for vertical centering
        "             ", // Empty space for vertical centering
        "             ", // Empty space for vertical centering
        "Centered Text",
        "Bottom Text  ",
        "Bottom Text  ",
    ];
    assert_rendered_view(stack, expected_output, 13, 7);
}

#[test]
fn vstack_test_border_view_in_vstack_center_vertically() {
    let view = vstack((text("TOP"), text("CENTER").center().border(), text("BOTTOM")));

    let expected_output = vec![
        "TOP          ", // Top text
        "┌───────────┐", // Border top
        "│           │", // Centered text inside border
        "│           │", // Centered text inside border
        "│  CENTER   │", // Centered text inside border
        "│           │", // Centered text inside border
        "│           │", // Centered text inside border
        "└───────────┘", // Border bottom
        "BOTTOM       ", // Bottom text
    ];
    assert_rendered_view(view, expected_output, 13, 9);
}

#[test]
fn vstack_test_vertical_alignment_in_vstack() {
    let stack = vstack((
        text("A"),           //
        text("AAA"),         //
        text("AAAAAAAAAAA"), //
        text("AAA"),         //
        text("A"),           //
    ))
    .alignment(HorizontalAlignment::Center);

    let expected_output = vec![
        "     A     ",
        "    AAA    ",
        "AAAAAAAAAAA",
        "    AAA    ",
        "     A     ",
    ];
    assert_rendered_view(stack, expected_output, 11, 5);
}

#[test]
fn vstack_test_vertical_alignment_in_vstack_and_frame() {
    let stack = vstack((
        text("A"),     //
        text("AAA"),   //
        text("AAAAA"), //
        text("AAA"),   //
        text("A"),     //
    ))
    .alignment(HorizontalAlignment::Center)
    .center_horizontally();

    let expected_output = vec![
        "     A     ",
        "    AAA    ",
        "   AAAAA   ",
        "    AAA    ",
        "     A     ",
    ];
    assert_rendered_view(stack, expected_output, 11, 5);
}
