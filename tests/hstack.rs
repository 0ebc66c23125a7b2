use terminus::{hstack, text, vstack, Alignment, AppState, Buffer, Context, HorizontalAlignment, Point, Rect, Size, VerticalAlignment, View, ViewExtensions, ViewId};

fn assert_rendered_view<V: View>(view: V, expected: Vec<&str>, buffer_width: u16, buffer_height: u16) {
    let mut buffer = Buffer::new(buffer_width, buffer_height);
    let context = Context::new(Rect { point: Point::zero(), size: buffer.size });
    view.render(&mut ViewId::empty(), context, &mut AppState::new(), &mut buffer);
    assert_eq!(buffer.as_plain_str(), expected.join("\n"));
}

#[test]
fn test_horizontal_stack_sizing() {
    let stack = hstack((vstack(("hello", "world")), "1234567", "cool"));

    let size = stack.size(Size::max());

    assert_eq!(size.width, 18); // Sum of widths + spacing
    assert_eq!(size.height, 2); // The maximum height of the children
}

#[test]
fn test_horizontal_stack_rendering() {
    let stack = hstack((vstack(("hello", "world")), "1234567", "cool"));
    let expected_output = vec![
        "hello 1234567 cool", //
        "world             ", //
    ];
    assert_rendered_view(stack, expected_output, 18, 2);
}

#[test]
fn test_border_view_in_hstack_center_vertically() {
    let view = hstack((
        text("LEFT"), //
        text("CENTER").center().border(),
        text("RIGHT"),
    ));

    let expected_output = vec![
        "LEFT ┌────────────┐ RIGHT", //
        "     │            │      ", //
        "     │            │      ", //
        "     │   CENTER   │      ", //
        "     │            │      ", //
        "     │            │      ", //
        "     └────────────┘      ", //
    ];
    assert_rendered_view(view, expected_output, 25, 7);
}

#[test]
fn test_bottom_alignment_in_hstack() {
    let view = hstack((
        text("LEFT"), //
        text("CENTER").center().border(),
        text("RIGHT"),
    ))
    .alignment(VerticalAlignment::Bottom);

    let expected_output = vec![
        "     ┌────────────┐      ", //
        "     │            │      ", //
        "     │            │      ", //
        "     │   CENTER   │      ", //
        "     │            │      ", //
        "     │            │      ", //
        "LEFT └────────────┘ RIGHT", //
    ];
    assert_rendered_view(view, expected_output, 25, 7);
}

#[test]
fn test_horizontal_alignment_in_hstack() {
    let stack = hstack((
        text("A"),                                 //
        vstack((text("A"), text("A"), text("A"))), //
        vstack((
            text("A"),
            text("A"),
            text("A"),
            text("A"),
            text("A"),
            text("A"),
            text("A"),
            text("A"),
            text("A"),
            text("A"),
            text("A"),
        )), //
        vstack((text("A"), text("A"), text("A"))), //
        text("A"),
    ))
    .alignment(VerticalAlignment::Center);

    let expected_output = vec![
        "    A    ",
        "    A    ",
        "    A    ",
        "    A    ",
        "  A A A  ",
        "A A A A A",
        "  A A A  ",
        "    A    ",
        "    A    ",
        "    A    ",
        "    A    ",
    ];
    assert_rendered_view(stack, expected_output, 9, 11);
}
