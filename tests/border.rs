use terminus::{hstack, text, AppState, Buffer, BorderStyle, Context, Point, Rect, Size, View, ViewExtensions, ViewId};

fn assert_rendered_view<V: View>(view: V, expected: Vec<&str>, buffer_width: u16, buffer_height: u16) {
    let mut buffer = Buffer::new(buffer_width, buffer_height);
    let context = Context::new(Rect { point: Point::zero(), size: buffer.size });
    view.render(&mut ViewId::empty(), context, &mut AppState::new(), &mut buffer);
    assert_eq!(buffer.as_plain_str(), expected.join("\n"));
}

#[test]
fn test_border_size() {
    let view = hstack((text("Test"), text("View")));
    let border = view.border();
    let expected_size = Size { width: 13, height: 3 };
    assert_eq!(border.size(Size::max()), expected_size);
}

#[test]
fn test_border_rendering() {
    let view = hstack((text("Test"), text("View"))).border();
    let expected_output = vec![
        "┌───────────┐", //
        "│ Test View │", //
        "└───────────┘", //
    ];
    assert_rendered_view(view, expected_output, 13, 3);
}

#[test]
fn test_nested_bordered_view() {
    let inner_view = text("Nested").border();
    let outer_view = inner_view.border();
    let expected_output = vec![
        "┌────────────┐", //
        "│ ┌────────┐ │", //
        "│ │ Nested │ │", //
        "│ └────────┘ │", //
        "└────────────┘", //
    ];
    assert_eq!(outer_view.size(Size::max()), Size { width: 14, height: 5 });
    assert_rendered_view(outer_view, expected_output, 14, 5);
}

#[test]
fn test_nested_bordered_view_double() {
    let inner_view = text("Nested").border().border_style(BorderStyle::Double);
    let outer_view = inner_view.border().border_style(BorderStyle::Double);
    let expected_output = vec![
        "╔════════════╗", //
        "║ ╔════════╗ ║", //
        "║ ║ Nested ║ ║", //
        "║ ╚════════╝ ║", //
        "╚════════════╝", //
    ];
    assert_eq!(outer_view.size(Size::max()), Size { width: 14, height: 5 });
    assert_rendered_view(outer_view, expected_output, 14, 5);
}

#[test]
fn test_title() {
    let view = text("Titled View").border().title("Title");
    let expected_output = vec![
        "┌Title────────┐", //
        "│ Titled View │", //
        "└─────────────┘", //
    ];
    assert_eq!(view.size(Size::max()), Size { width: 15, height: 3 });
    assert_rendered_view(view, expected_output, 15, 3);
}

#[test]
fn rounded_border_glyphs() {
    let view = text("ok").border().border_style(BorderStyle::Rounded);
    assert_rendered_view(view, vec!["╭────╮", "│ ok │", "╰────╯"], 6, 3);
}

#[test]
fn border_is_clamped_to_the_proposal() {
    let view = text("long text").border();
    assert_eq!(view.size(Size::new(5, 2)), Size::new(5, 2));
    assert_eq!(view.size(Size::new(1, 0)), Size::new(1, 0));
}

#[test]
fn border_in_a_small_buffer_does_not_panic() {
    let view = text("Nested").border().border();
    let mut buffer = Buffer::new(3, 2);
    let context = Context::new(Rect::new(0, 0, 40, 40));
    view.render(&mut ViewId::empty(), context, &mut AppState::new(), &mut buffer);
    assert_eq!(buffer.size, Size::new(3, 2));
}
