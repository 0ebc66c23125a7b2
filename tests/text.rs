use terminus::{text, AppState, Buffer, Context, Rect, Size, View, ViewId};

#[test]
fn test_text_size() {
    let text = text("Hello");
    let expected_size = Size::new(5, 1);
    assert_eq!(text.size(Size::max()), expected_size);
}

#[test]
fn test_text_render() {
    let text = text("Hello");
    let mut buffer = Buffer::new(10, 1);
    let rect = Rect::new(0, 0, 10, 1);
    let context = Context::new(rect);
    text.render(&mut ViewId::empty(), context, &mut AppState::new(), &mut buffer);

    let expected_output = "Hello     ";
    let result: String = buffer.as_plain_str();
    assert_eq!(result, expected_output);
}

#[test]
fn test_text_render_truncated() {
    let text = text("Hello, World!");
    let size = text.size(Size::max());
    assert_eq!(size, Size::new(13, 1));

    let mut buffer = Buffer::new(5, 1);
    let rect = Rect::new(0, 0, 5, 1);
    let context = Context::new(rect);
    text.render(&mut ViewId::empty(), context, &mut AppState::new(), &mut buffer);

    let expected_output = "Hello";
    let result: String = buffer.as_plain_str();
    assert_eq!(result, expected_output);
}

#[test]
fn test_char_size() {
    let char = text("\u{2588}");
    let size = char.size(Size::max());
    assert_eq!(size, Size::new(1, 1));
}

#[test]
fn text_is_measured_by_display_width() {
    assert_eq!(text("\u{4f60}\u{597d}").size(Size::max()), Size::new(4, 1));
    assert_eq!(text("").size(Size::max()), Size::new(0, 1));
    assert_eq!(text("Hello").size(Size::new(3, 0)), Size::new(3, 1));
}

#[test]
fn str_and_string_are_views() {
    assert_eq!("abc".size(Size::max()), Size::new(3, 1));
    assert_eq!(String::from("\u{4f60}").size(Size::max()), Size::new(2, 1));
    let mut buffer = Buffer::new(4, 1);
    "xy".render(&mut ViewId::empty(), Context::new(Rect::new(1, 0, 4, 1)), &mut AppState::new(), &mut buffer);
    assert_eq!(buffer.as_plain_str(), " xy ");
}

#[test]
fn text_keeps_grapheme_clusters_together() {
    let mut buffer = Buffer::new(3, 1);
    let t = text("e\u{301}a");
    t.render(&mut ViewId::empty(), Context::new(Rect::new(0, 0, 3, 1)), &mut AppState::new(), &mut buffer);
    assert_eq!(buffer.get(0, 0).symbol, "e\u{301}");
    assert_eq!(buffer.get(1, 0).symbol, "a");
    assert_eq!(buffer.get(2, 0).symbol, " ");
}

#[test]
fn wide_glyphs_are_cut_by_display_width() {
    let mut buffer = Buffer::new(4, 1);
    let t = text("\u{4f60}\u{597d}");
    t.render(&mut ViewId::empty(), Context::new(Rect::new(0, 0, 3, 1)), &mut AppState::new(), &mut buffer);
    assert_eq!(buffer.get(0, 0).symbol, "\u{4f60}");
    assert_eq!(buffer.get(1, 0).symbol, " ");
    let mut buffer = Buffer::new(4, 1);
    t.render(&mut ViewId::empty(), Context::new(Rect::new(0, 0, 4, 1)), &mut AppState::new(), &mut buffer);
    assert_eq!(buffer.get(1, 0).symbol, "\u{597d}");
}
