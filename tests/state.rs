use terminus::{if_then_view, text, AppState, Buffer, Context, Rect, RenderCounter, Size, View, ViewExtensions, ViewId};

#[test]
fn state_starts_at_the_default_and_keeps_values() {
    let mut state = AppState::new();
    let mut id = ViewId::empty();
    id.push(3);
    assert_eq!(state.get_mut(&id, 7), 7);
    state.set(&id, 9);
    assert_eq!(state.get_mut(&id, 0), 9);
    let mut other = ViewId::empty();
    other.push(4);
    assert_eq!(state.get_mut(&other, 1), 1);
    assert_eq!(state.get_mut(&id, 0), 9);
}

#[test]
fn view_id_push_and_pop() {
    let mut id = ViewId::empty();
    id.push(1);
    id.push(2);
    assert_eq!(id.len(), 2);
    assert_eq!(id.segment(1), 2);
    id.pop();
    assert_eq!(id.len(), 1);
    assert!(id.same_as(&id.copied()));
    id.push_hashable("key");
    assert_eq!(id.len(), 2);
}

#[test]
fn render_counter_counts_per_path() {
    let mut state = AppState::new();
    let mut buffer = Buffer::new(30, 1);
    let counter = RenderCounter {};
    assert_eq!(counter.size(Size::max()), Size::new(80, 1));
    for _ in 0..3 {
        counter.render(&mut ViewId::empty(), Context::new(Rect::new(0, 0, 30, 1)), &mut state, &mut buffer);
    }
    assert_eq!(state.get_mut(&ViewId::empty(), 0), 3);
    assert!(buffer.as_plain_str().starts_with("Render []: 3"));
}

#[test]
fn branches_keep_separate_state() {
    let mut state = AppState::new();
    let mut buffer = Buffer::new(30, 1);
    let ctx = Context::new(Rect::new(0, 0, 30, 1));
    if_then_view(true, RenderCounter {}, RenderCounter {}).render(&mut ViewId::empty(), ctx, &mut state, &mut buffer);
    if_then_view(false, RenderCounter {}, RenderCounter {}).render(&mut ViewId::empty(), ctx, &mut state, &mut buffer);
    let mut t = ViewId::empty();
    t.push(1);
    let mut f = ViewId::empty();
    f.push(0);
    assert_eq!(state.get_mut(&t, 0), 1);
    assert_eq!(state.get_mut(&f, 0), 1);
}

#[test]
fn hidden_view_takes_no_room() {
    assert_eq!(text("abc").visible(false).size(Size::max()), Size::new(0, 0));
    assert_eq!(text("abc").visible(true).size(Size::max()), Size::new(3, 1));
    let none: Option<terminus::Text> = None;
    assert_eq!(none.size(Size::max()), Size::new(0, 0));
}

#[test]
fn background_fills_behind_the_view() {
    let view = text("ab").background(terminus::Color::Blue);
    let mut buffer = Buffer::new(4, 1);
    view.render(&mut ViewId::empty(), Context::new(Rect::new(0, 0, 4, 1)), &mut AppState::new(), &mut buffer);
    assert_eq!(buffer.get(1, 0).bg, terminus::Color::Blue);
    assert_eq!(buffer.get(2, 0).bg, terminus::Color::Reset);
    assert_eq!(buffer.as_plain_str(), "ab  ");
}

#[test]
fn modifiers_reach_the_cells() {
    let view = text("ab").bold().green();
    let mut buffer = Buffer::new(2, 1);
    view.render(&mut ViewId::empty(), Context::new(Rect::new(0, 0, 2, 1)), &mut AppState::new(), &mut buffer);
    assert_eq!(buffer.get(0, 0).fg, terminus::Color::Green);
    assert_eq!(buffer.get(0, 0).modifier, terminus::Modifier::bold());
}

#[test]
fn render_counter_label_shows_the_path() {
    let mut state = AppState::new();
    let mut buffer = Buffer::new(40, 1);
    let mut id = ViewId::empty();
    id.push(12);
    id.push(0);
    RenderCounter {}.render(&mut id, Context::new(Rect::new(0, 0, 40, 1)), &mut state, &mut buffer);
    assert!(buffer.as_plain_str().starts_with("Render [12, 0]: 1 "));
}

#[test]
fn empty_view_changes_nothing() {
    let mut buffer = Buffer::new(3, 1);
    buffer.set_char_at(1, 0, 'k', terminus::Color::Red, None, terminus::Modifier::empty());
    let before = buffer.clone();
    terminus::empty().render(&mut ViewId::empty(), Context::new(Rect::new(0, 0, 3, 1)), &mut AppState::new(), &mut buffer);
    assert_eq!(buffer, before);
}
