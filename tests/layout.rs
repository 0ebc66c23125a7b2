use terminus::{hstack, text, vstack, zstack, Alignment, AppState, Buffer, Context, Point, Rect, Size, View, ViewExtensions, ViewId};

fn assert_rendered_view<V: View>(view: V, expected: Vec<&str>, buffer_width: u16, buffer_height: u16) {
    let mut buffer = Buffer::new(buffer_width, buffer_height);
    let context = Context::new(Rect { point: Point::zero(), size: buffer.size });
    view.render(&mut ViewId::empty(), context, &mut AppState::new(), &mut buffer);
    assert_eq!(buffer.as_plain_str(), expected.join("\n"));
}

#[test]
fn test_rendered_padded_text() {
    let padded_text_view = text("RUST").padding(1);
    let expected = vec![
        "      ", //
        " RUST ", //
        "      ",
    ];
    assert_rendered_view(padded_text_view, expected, 6, 3);
}

#[test]
fn test_vstack_of_texts() {
    let vstack = vstack((text("Hello"), text("World"), text("!!!!!")));
    let expected = vec![
        "Hello", //
        "World", //
        "!!!!!", //
    ];
    let size = vstack.size(Size::max());
    assert_rendered_view(vstack, expected, size.width, size.height);
}

#[test]
fn test_hstack_with_spacing() {
    let hstack_view = hstack((text("A"), text("B"), text("C"))).spacing(2);
    let expected = vec!["A  B  C"];
    let size = hstack_view.size(Size::max());
    assert_rendered_view(hstack_view, expected, size.width, size.height);
}

#[test]
fn test_vstack_with_padded_text() {
    let vstack = vstack((text("A"), text("B").padding(1), text("C")));
    let expected = vec![
        "A  ", //
        "   ", //
        " B ", //
        "   ", //
        "C  ",
    ];
    let size = vstack.size(Size::max());
    assert_rendered_view(vstack, expected, size.width, size.height);
}

#[test]
fn test_alternating_hstack_vstack() {
    let alternating_stack = vstack((text("B"), hstack((text("C"), text("D"), text("E"))), text("F")));
    let expected = vec![
        "B    ", //
        "C D E", //
        "F    ", //
    ];
    let size = alternating_stack.size(Size::max());
    assert_rendered_view(alternating_stack, expected, size.width, size.height);
}

#[test]
fn stack_sum_law_on_rigid_children() {
    let stack = vstack((text("a"), text("bb").padding_v(2), text("ccc"))).spacing(3);
    // 1 + 5 + 1 rows plus two gaps of 3
    assert_eq!(stack.size(Size::max()), Size::new(3, 13));
    let row = hstack((text("ab"), text("cde"), text("f")));
    // 2 + 3 + 1 columns plus two gaps of 1
    assert_eq!(row.size(Size::max()), Size::new(8, 1));
}

#[test]
fn stack_is_clamped_to_the_proposal() {
    let stack = vstack((text("a"), text("b"), text("c"), text("d")));
    assert_eq!(stack.size(Size::new(10, 2)), Size::new(1, 2));
}

#[test]
fn empty_tuple_stack_sizes() {
    let stack = vstack((text(""),));
    assert_eq!(stack.size(Size::max()), Size::new(0, 1));
}

#[test]
fn flex_ordering_rigid_child_first_last_or_middle() {
    // rigid child in the middle: 3 rows for it, the 8 left split 4 and 4
    let v = vstack((text("a").fill_vertically(), text("r").padding_v(1), text("b").fill_vertically()));
    let (sizes, _, _) = v.layout(Size::new(5, 11));
    assert_eq!(sizes[1].height, 3);
    assert_eq!(sizes[0].height, 4);
    assert_eq!(sizes[2].height, 4);
    // rigid child first: the 9 left split 4 and 5
    let v = vstack((text("r").padding_v(1), text("a").fill_vertically(), text("b").fill_vertically()));
    let (sizes, _, _) = v.layout(Size::new(5, 12));
    assert_eq!(sizes[0].height, 3);
    assert_eq!(sizes[1].height, 4);
    assert_eq!(sizes[2].height, 5);
    // rigid child last
    let v = vstack((text("a").fill_vertically(), text("b").fill_vertically(), text("r").padding_v(1)));
    let (sizes, _, _) = v.layout(Size::new(5, 10));
    assert_eq!(sizes[2].height, 3);
    assert!(sizes[0].height.abs_diff(sizes[1].height) <= 1);
    assert_eq!(sizes[0].height + sizes[1].height, 7);
}

#[test]
fn zstack_overlays_children() {
    let z = zstack((text("hello"), text("ab")));
    assert_eq!(z.size(Size::max()), Size::new(5, 1));
    assert_rendered_view(z, vec!["abllo"], 5, 1);
    let centered = zstack((text("hello"), text("x"))).alignment(Alignment::CENTER);
    assert_rendered_view(centered, vec!["hexlo"], 5, 1);
    let right = zstack((text("hello"), text("x"))).alignment(Alignment::BOTTOM_RIGHT);
    assert_rendered_view(right, vec!["hellx"], 5, 1);
}

#[test]
fn view_as_str_renders_plain_rows() {
    let view = vstack((hstack((text("1."), text("Eggs"))), hstack((text("2."), text("Powders"))))).border();
    let expected = vec!["┌────────────┐", "│ 1. Eggs    │", "│ 2. Powders │", "└────────────┘"].join("\n");
    assert_eq!(expected, view.as_str());
}

#[test]
fn size_is_idempotent() {
    let view = hstack((text("a").fill(), vstack((text("b"), text("c").padding(1))).border()));
    for p in [Size::new(0, 0), Size::new(7, 3), Size::new(40, 12), Size::max()] {
        assert_eq!(view.size(p), view.size(p));
    }
}
