use terminus::{
    decide_event, text, vstack, AppState, Attribute, Buffer, Cell, Color, EventAction, FullScreenRenderer, InlineRenderer,
    Modifier, TermCommand, TerminalEvent, ViewExtensions,
};

fn attrs(cmds: &[TermCommand]) -> Vec<Attribute> {
    cmds.iter()
        .filter_map(|c| match c {
            TermCommand::SetAttribute(a) => Some(*a),
            _ => None,
        })
        .collect()
}

#[test]
fn removing_bold_keeps_dim() {
    let mut out = Vec::new();
    let both = Modifier::bold().union(Modifier::dim());
    Modifier::write_diff(Modifier::dim(), both, &mut out);
    assert_eq!(attrs(&out), vec![Attribute::NormalIntensity, Attribute::Dim]);
}

#[test]
fn removing_dim_keeps_bold() {
    let mut out = Vec::new();
    let both = Modifier::bold().union(Modifier::dim());
    Modifier::write_diff(Modifier::bold(), both, &mut out);
    assert_eq!(attrs(&out), vec![Attribute::NormalIntensity, Attribute::Bold]);
}

#[test]
fn removed_attributes_go_off_before_added_ones_go_on() {
    let mut out = Vec::new();
    let prev = Modifier::italic().union(Modifier::underline());
    let next = Modifier::bold().union(Modifier::strikethrough());
    Modifier::write_diff(next, prev, &mut out);
    assert_eq!(
        attrs(&out),
        vec![Attribute::NoItalic, Attribute::NoUnderline, Attribute::Bold, Attribute::CrossedOut]
    );
}

#[test]
fn unchanged_attributes_emit_nothing() {
    let mut out = Vec::new();
    Modifier::write_diff(Modifier::bold(), Modifier::bold(), &mut out);
    assert!(out.is_empty());
}

#[test]
fn cell_commands_set_style_then_reset() {
    let mut c = Cell::new("x");
    c.set_fg(Color::Red);
    c.set_modifier(Modifier::bold());
    let mut out = Vec::new();
    c.write_commands(&mut out);
    assert_eq!(out.len(), 7);
    assert!(matches!(out[0], TermCommand::SetForeground(Color::Red)));
    assert!(matches!(out[2], TermCommand::SetAttribute(Attribute::Bold)));
    assert!(matches!(&out[3], TermCommand::Print(s) if s == "x"));
    assert!(matches!(out[6], TermCommand::SetAttribute(Attribute::Reset)));
}

#[test]
fn emission_moves_the_cursor_only_between_runs() {
    let prev = Buffer::new(5, 2);
    let mut current = Buffer::new(5, 2);
    current.set_string_at(1, 0, 3, "abc", Color::Reset, None, Modifier::empty());
    current.set_char_at(0, 1, 'z', Color::Reset, None, Modifier::empty());
    let mut prev = prev;
    let mut out = Vec::new();
    terminus::renderer::print_buffer(&current, &mut prev, &mut out);
    let moves: Vec<(u16, u16)> = out
        .iter()
        .filter_map(|c| match c {
            TermCommand::MoveTo(x, y) => Some((*x, *y)),
            _ => None,
        })
        .collect();
    assert_eq!(moves, vec![(1, 0), (0, 1)]);
    let prints = out.iter().filter(|c| matches!(c, TermCommand::Print(_))).count();
    assert_eq!(prints, 4);
    assert_eq!(prev, Buffer::new(5, 2));
}

#[test]
fn colors_are_sent_only_when_they_change() {
    let mut prev = Buffer::new(3, 1);
    let mut current = Buffer::new(3, 1);
    current.set_string_at(0, 0, 3, "abc", Color::Green, None, Modifier::empty());
    let mut out = Vec::new();
    terminus::renderer::print_buffer(&current, &mut prev, &mut out);
    let greens = out.iter().filter(|c| matches!(c, TermCommand::SetForeground(Color::Green))).count();
    assert_eq!(greens, 1);
}

#[test]
fn inline_renderer_claims_rows_as_views_grow() {
    let mut r = InlineRenderer::new(20, 10, 7);
    assert_eq!(r.claimed_height, 3);
    let mut state = AppState::new();
    let mut out = Vec::new();
    r.render(&text("one"), &mut state, &mut out);
    assert!(!out.iter().any(|c| matches!(c, TermCommand::ScrollUp(_))));
    assert_eq!(r.view_height, 1);
    assert!(out.iter().any(|c| matches!(c, TermCommand::MoveTo(0, 7))));

    let mut out = Vec::new();
    let tall = vstack((text("a"), text("b"), text("c"), text("d"), text("e")));
    r.render(&tall, &mut state, &mut out);
    assert!(matches!(out[0], TermCommand::ScrollUp(2)));
    assert_eq!(r.claimed_height, 5);
    assert_eq!(r.view_height, 5);

    let mut out = Vec::new();
    r.move_cursor_to_bottom_of_current_view(&mut out);
    assert!(matches!(out[0], TermCommand::MoveTo(0, 10)));
}

#[test]
fn inline_resize_clears_the_claimed_rows() {
    let mut r = InlineRenderer::new(20, 10, 6);
    let mut out = Vec::new();
    r.resize(30, 12, &mut out);
    assert!(matches!(out[0], TermCommand::MoveUp(4)));
    assert!(matches!(out[1], TermCommand::ClearFromCursorDown));
    assert_eq!(r.current_buffer.size.width, 30);
    assert_eq!(r.prev_buffer.size.height, 12);
}

#[test]
fn full_screen_renderer_paints_at_the_top() {
    let mut r = FullScreenRenderer::new(6, 3);
    let mut state = AppState::new();
    let mut out = Vec::new();
    r.render(&text("hi").padding(1), &mut state, &mut out);
    assert!(out.iter().any(|c| matches!(c, TermCommand::MoveTo(1, 1))));
    let mut out = Vec::new();
    r.resize(8, 4, &mut out);
    assert!(matches!(out[0], TermCommand::ClearAll));
}

#[test]
fn unchanged_frame_paints_nothing() {
    let mut r = FullScreenRenderer::new(6, 2);
    let mut state = AppState::new();
    let mut out = Vec::new();
    r.render(&text("same"), &mut state, &mut out);
    let mut out = Vec::new();
    r.render(&text("same"), &mut state, &mut out);
    assert!(!out.iter().any(|c| matches!(c, TermCommand::Print(_))));
}

#[test]
fn event_decisions() {
    assert_eq!(decide_event(TerminalEvent::Key { ch: Some('c'), control_only: true }), EventAction::Exit);
    assert_eq!(decide_event(TerminalEvent::Key { ch: Some('d'), control_only: true }), EventAction::Exit);
    assert_eq!(decide_event(TerminalEvent::Key { ch: Some('c'), control_only: false }), EventAction::DeliverKey);
    assert_eq!(decide_event(TerminalEvent::Key { ch: None, control_only: true }), EventAction::DeliverKey);
    assert_eq!(decide_event(TerminalEvent::Resize(3, 4)), EventAction::Resize(3, 4));
    assert_eq!(decide_event(TerminalEvent::ScrollDown), EventAction::DeliverDown);
    assert_eq!(decide_event(TerminalEvent::ScrollUp), EventAction::DeliverUp);
    assert_eq!(decide_event(TerminalEvent::Other), EventAction::Ignore);
}

#[test]
fn buffer_commands_style_every_cell_row_by_row() {
    let mut b = Buffer::new(2, 2);
    b.set_char_at(1, 1, 'q', Color::Magenta, None, Modifier::italic());
    let cmds = b.as_commands();
    let breaks = cmds.iter().filter(|c| matches!(c, TermCommand::LineBreak)).count();
    assert_eq!(breaks, 1);
    let prints: Vec<String> = cmds
        .iter()
        .filter_map(|c| match c {
            TermCommand::Print(s) => Some(s.clone()),
            _ => None,
        })
        .collect();
    assert_eq!(prints, vec![" ", " ", " ", "q"]);
    assert!(cmds.iter().any(|c| matches!(c, TermCommand::SetForeground(Color::Magenta))));
    assert!(cmds.iter().any(|c| matches!(c, TermCommand::SetAttribute(Attribute::Italic))));
    // three plain cells of 6 commands, one italic cell of 7, one line break
    assert_eq!(cmds.len(), 6 * 3 + 7 + 1);
}
