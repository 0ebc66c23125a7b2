use terminus::{Buffer, Cell, Color, Modifier, Size};

#[test]
fn new_buffer_is_blank() {
    let b = Buffer::new(4, 3);
    assert_eq!(b.size, Size::new(4, 3));
    assert_eq!(b.cells.len(), 12);
    assert!(b.cells.iter().all(|c| *c == Cell::default()));
    assert_eq!(b.as_plain_str(), "    \n    \n    ");
}

#[test]
fn diff_of_a_buffer_with_itself_is_empty() {
    let mut b = Buffer::new(5, 2);
    b.set_string_at(0, 1, 5, "hi", Color::Red, None, Modifier::empty());
    assert!(b.diff(&b.clone()).is_empty());
}

#[test]
fn diff_lists_exactly_the_changed_cells_in_order() {
    let before = Buffer::new(4, 3);
    let mut after = Buffer::new(4, 3);
    after.set_char_at(3, 0, 'x', Color::Reset, None, Modifier::empty());
    after.set_char_at(0, 2, 'y', Color::Green, Some(Color::Blue), Modifier::bold());
    after.set_char_at(1, 1, ' ', Color::Reset, None, Modifier::empty());
    let d = after.diff(&before);
    let positions: Vec<(u16, u16)> = d.iter().map(|e| (e.0, e.1)).collect();
    assert_eq!(positions, vec![(3, 0), (0, 2)]);
    assert_eq!(d[1].2.symbol, "y");
    assert_eq!(d[1].2.fg, Color::Green);
    assert_eq!(d[1].2.bg, Color::Blue);
    assert_eq!(d[1].2.modifier, Modifier::bold());
}

#[test]
fn diff_sees_color_and_attribute_changes() {
    let before = Buffer::new(2, 1);
    let mut after = Buffer::new(2, 1);
    after.get_mut(1, 0).set_modifier(Modifier::italic());
    let d = after.diff(&before);
    assert_eq!(d.len(), 1);
    assert_eq!((d[0].0, d[0].1), (1, 0));
}

#[test]
fn set_string_stops_at_the_row_end_and_max_width() {
    let mut b = Buffer::new(4, 2);
    b.set_string_at(2, 0, 10, "abcdef", Color::Reset, None, Modifier::empty());
    assert_eq!(b.as_plain_str(), "  ab\n    ");
    let mut b = Buffer::new(6, 1);
    b.set_string_at(1, 0, 2, "abcdef", Color::Reset, None, Modifier::empty());
    assert_eq!(b.as_plain_str(), " ab   ");
}

#[test]
fn writes_outside_the_buffer_are_dropped() {
    let mut b = Buffer::new(3, 2);
    b.set_char_at(3, 0, 'x', Color::Reset, None, Modifier::empty());
    b.set_char_at(0, 2, 'x', Color::Reset, None, Modifier::empty());
    b.set_string_at(9, 9, 3, "abc", Color::Reset, None, Modifier::empty());
    assert_eq!(b, Buffer::new(3, 2));
}

#[test]
fn set_char_keeps_background_when_none_given() {
    let mut b = Buffer::new(1, 1);
    b.set_char_at(0, 0, 'a', Color::Reset, Some(Color::Yellow), Modifier::empty());
    b.set_char_at(0, 0, 'b', Color::Red, None, Modifier::dim());
    let c = b.get(0, 0);
    assert_eq!(c.symbol, "b");
    assert_eq!(c.bg, Color::Yellow);
    assert_eq!(c.fg, Color::Red);
    assert_eq!(c.modifier, Modifier::dim());
}

#[test]
fn clear_blanks_every_cell() {
    let mut b = Buffer::new(3, 2);
    b.set_string_at(0, 0, 3, "abc", Color::Red, Some(Color::Blue), Modifier::bold());
    b.clear();
    assert_eq!(b, Buffer::new(3, 2));
}

#[test]
fn clear_line_marks_one_row_stale() {
    let mut b = Buffer::new(2, 3);
    b.clear_line(1);
    assert_eq!(b.as_plain_str(), "  \n\u{ac}\u{ac}\n  ");
    b.clear_line(7);
    assert_eq!(b.get(0, 2).symbol, " ");
}

#[test]
fn cell_setters() {
    let mut c = Cell::new("a");
    c.set_symbol("b");
    c.set_fg(Color::Cyan);
    c.set_bg(Color::AnsiValue(17));
    c.set_modifier(Modifier::underline());
    assert_eq!(c.symbol, "b");
    assert_eq!(c.fg, Color::Cyan);
    assert_eq!(c.bg, Color::AnsiValue(17));
    assert_eq!(c.modifier, Modifier::underline());
    c.reset();
    assert_eq!(c, Cell::default());
}

#[test]
fn zero_sized_buffer() {
    let b = Buffer::new(0, 0);
    assert_eq!(b.as_plain_str(), "");
    assert!(b.diff(&Buffer::new(0, 0)).is_empty());
}
