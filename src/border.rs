use crate::buffer::{lemma_cells_distinct, lemma_index_in_bounds, lemma_rows_apart, styled, Buffer};
use crate::color::{Color, Modifier};
use crate::private::Sealed;
use crate::size::{min_int, sat_add, sat_sub, Point, Rect, Size};
use crate::buffer::wrote_string;
use crate::unicode::display_width_of;
use crate::view::{AppState, Context, View, ViewId};
use vstd::prelude::*;
use vstd::view::View as _;

verus! {

/// The glyph set an outline is drawn with.
#[derive(Clone, Copy, Debug, PartialEq, Eq, Structural)]
pub enum BorderStyle {
    Single,
    Double,
    Rounded,
}

/// The six glyphs of an outline.
#[derive(Clone, Copy, Debug, PartialEq, Eq, Structural)]
pub struct BorderComponents {
    pub top_left: char,
    pub top_right: char,
    pub bottom_left: char,
    pub bottom_right: char,
    pub horizontal: char,
    pub vertical: char,
}

impl BorderStyle {
    pub open spec fn spec_components(self) -> BorderComponents {
        match self {
            BorderStyle::Single => BorderComponents {
                top_left: '\u{250c}',
                top_right: '\u{2510}',
                bottom_left: '\u{2514}',
                bottom_right: '\u{2518}',
                horizontal: '\u{2500}',
                vertical: '\u{2502}',
            },
            BorderStyle::Double => BorderComponents {
                top_left: '\u{2554}',
                top_right: '\u{2557}',
                bottom_left: '\u{255a}',
                bottom_right: '\u{255d}',
                horizontal: '\u{2550}',
                vertical: '\u{2551}',
            },
            BorderStyle::Rounded => BorderComponents {
                top_left: '\u{256d}',
                top_right: '\u{256e}',
                bottom_left: '\u{2570}',
                bottom_right: '\u{256f}',
                horizontal: '\u{2500}',
                vertical: '\u{2502}',
            },
        }
    }

    /// The glyphs of this style: light lines, double lines, or light lines
    /// with rounded corners.
    pub fn components(&self) -> (r: BorderComponents)
        ensures
            r == self.spec_components(),
    {
        match self {
            BorderStyle::Single => BorderComponents {
                top_left: '\u{250c}',
                top_right: '\u{2510}',
                bottom_left: '\u{2514}',
                bottom_right: '\u{2518}',
                horizontal: '\u{2500}',
                vertical: '\u{2502}',
            },
            BorderStyle::Double => BorderComponents {
                top_left: '\u{2554}',
                top_right: '\u{2557}',
                bottom_left: '\u{255a}',
                bottom_right: '\u{255d}',
                horizontal: '\u{2550}',
                vertical: '\u{2551}',
            },
            BorderStyle::Rounded => BorderComponents {
                top_left: '\u{256d}',
                top_right: '\u{256e}',
                bottom_left: '\u{2570}',
                bottom_right: '\u{256f}',
                horizontal: '\u{2500}',
                vertical: '\u{2502}',
            },
        }
    }
}

/// The cell at (`x`, `y`), where the buffer has one, shows `ch` in `color`.
pub open spec fn shows(b: Buffer, x: int, y: int, ch: char, color: Color) -> bool {
    b.in_bounds(x, y) ==> b.cell_at(x, y).symbol@ == seq![ch] && b.cell_at(x, y).fg == color
}

/// `after` is `before` with `ch` drawn in `color`, on no background of its
/// own and with no attribute, at each position of the buffer for which
/// `on_line` holds; every other cell is unchanged.
pub open spec fn drew_line(before: Buffer, after: Buffer, on_line: spec_fn(int, int) -> bool, ch: char, color: Color) -> bool {
    &&& after.size == before.size
    &&& forall|x: int, y: int|
        #![trigger after.cell_at(x, y)]
        before.in_bounds(x, y) ==> if on_line(x, y) {
            styled(after.cell_at(x, y), before.cell_at(x, y), seq![ch], color, None, Modifier { bits: 0 })
        } else {
            after.cell_at(x, y) == before.cell_at(x, y)
        }
}

/// `after` is `before` with the symbol at (`x`, `y`), where the buffer has
/// that cell, changed to `ch` in `color`, keeping its background and
/// attributes; every other cell is unchanged.
pub open spec fn put_symbol(before: Buffer, after: Buffer, x: u16, y: u16, ch: char, color: Color) -> bool {
    &&& after.size == before.size
    &&& forall|xx: int, yy: int|
        #![trigger after.cell_at(xx, yy)]
        before.in_bounds(xx, yy) ==> if xx == x && yy == y {
            styled(after.cell_at(xx, yy), before.cell_at(xx, yy), seq![ch], color, None, before.cell_at(xx, yy).modifier)
        } else {
            after.cell_at(xx, yy) == before.cell_at(xx, yy)
        }
}

/// Draws `ch` in `color` on row `y` from column `start_x` up to, not
/// including, `end_x`; cells past the buffer's edge are dropped.
pub fn draw_horizontal_line(buffer: &mut Buffer, y: u16, start_x: u16, end_x: u16, ch: char, color: Color)
    requires
        old(buffer).wf(),
    ensures
        final(buffer).wf(),
        final(buffer).size == old(buffer).size,
        drew_line(
            *old(buffer),
            *final(buffer),
            |xx: int, yy: int| yy == y && start_x <= xx < end_x,
            ch,
            color,
        ),
{
    let w = buffer.size.width;
    let mut x = start_x;
    while x < end_x
        invariant
            buffer.wf(),
            buffer.size == old(buffer).size,
            w == buffer.size.width,
            buffer.cells@.len() == old(buffer).cells@.len(),
            x >= start_x,
            start_x < end_x ==> x <= end_x,
            start_x >= end_x ==> x == start_x,
            drew_line(
                *old(buffer),
                *buffer,
                |xx: int, yy: int| yy == y && start_x <= xx < x,
                ch,
                color,
            ),
        decreases end_x - x,
    {
        let ghost before = *buffer;
        buffer.set_char_at(x, y, ch, color, None, Modifier::empty());
        proof {
            assert forall|xx: int, yy: int|
                #![trigger buffer.cell_at(xx, yy)]
                old(buffer).in_bounds(xx, yy) && !(xx == x && yy == y) implies buffer.cell_at(xx, yy)
                == before.cell_at(xx, yy) by {
                lemma_index_in_bounds(w as int, before.size.height as int, xx, yy);
                if before.in_bounds(x as int, y as int) {
                    lemma_cells_distinct(w as int, xx, yy, x as int, y as int);
                }
            }
        }
        x += 1;
    }
}

/// Draws `ch` in `color` down column `x` from row `start_y` up to, not
/// including, `end_y`; cells past the buffer's edge are dropped.
pub fn draw_vertical_line(buffer: &mut Buffer, x: u16, start_y: u16, end_y: u16, ch: char, color: Color)
    requires
        old(buffer).wf(),
    ensures
        final(buffer).wf(),
        final(buffer).size == old(buffer).size,
        drew_line(
            *old(buffer),
            *final(buffer),
            |xx: int, yy: int| xx == x && start_y <= yy < end_y,
            ch,
            color,
        ),
{
    let w = buffer.size.width;
    let mut y = start_y;
    while y < end_y
        invariant
            buffer.wf(),
            buffer.size == old(buffer).size,
            w == buffer.size.width,
            buffer.cells@.len() == old(buffer).cells@.len(),
            y >= start_y,
            start_y < end_y ==> y <= end_y,
            start_y >= end_y ==> y == start_y,
            drew_line(
                *old(buffer),
                *buffer,
                |xx: int, yy: int| xx == x && start_y <= yy < y,
                ch,
                color,
            ),
        decreases end_y - y,
    {
        let ghost before = *buffer;
        buffer.set_char_at(x, y, ch, color, None, Modifier::empty());
        proof {
            assert forall|xx: int, yy: int|
                #![trigger buffer.cell_at(xx, yy)]
                old(buffer).in_bounds(xx, yy) && !(xx == x && yy == y) implies buffer.cell_at(xx, yy)
                == before.cell_at(xx, yy) by {
                lemma_index_in_bounds(w as int, before.size.height as int, xx, yy);
                if before.in_bounds(x as int, y as int) {
                    lemma_cells_distinct(w as int, xx, yy, x as int, y as int);
                }
            }
        }
        y += 1;
    }
}

/// A rectangle an outline can be drawn around as four distinct corners:
/// at least two cells each way, and within the coordinate range.
pub open spec fn outline_fits(rect: Rect) -> bool {
    &&& rect.size.width >= 2
    &&& rect.size.height >= 2
    &&& rect.point.x + rect.size.width <= 0xffff
    &&& rect.point.y + rect.size.height <= 0xffff
}

/// The corners of `rect` show the corner glyphs of `g` in `color`.
pub open spec fn corners_drawn(b: Buffer, rect: Rect, g: BorderComponents, color: Color) -> bool {
    let l = rect.point.x as int;
    let t = rect.point.y as int;
    let r = l + rect.size.width - 1;
    let bt = t + rect.size.height - 1;
    &&& shows(b, l, t, g.top_left, color)
    &&& shows(b, r, t, g.top_right, color)
    &&& shows(b, l, bt, g.bottom_left, color)
    &&& shows(b, r, bt, g.bottom_right, color)
}

/// Row `y` between the corner columns of `rect` shows `ch` in `color`.
pub open spec fn edge_drawn(b: Buffer, rect: Rect, y: int, ch: char, color: Color) -> bool {
    forall|x: int|
        #![trigger b.cell_at(x, y)]
        rect.point.x < x < rect.point.x + rect.size.width - 1 ==> shows(b, x, y, ch, color)
}

/// Column `x` between the corner rows of `rect` shows `ch` in `color`.
pub open spec fn side_drawn(b: Buffer, rect: Rect, x: int, ch: char, color: Color) -> bool {
    forall|y: int|
        #![trigger b.cell_at(x, y)]
        rect.point.y < y < rect.point.y + rect.size.height - 1 ==> shows(b, x, y, ch, color)
}

/// The outline of `rect` in the glyphs `g` and `color`, wherever the buffer
/// has cells: the corners, the bottom edge, both sides, and the top edge
/// when `top_edge` holds (a title may stand there instead).
pub open spec fn outline_drawn(b: Buffer, rect: Rect, g: BorderComponents, color: Color, top_edge: bool) -> bool {
    let l = rect.point.x as int;
    let t = rect.point.y as int;
    let r = l + rect.size.width - 1;
    let bt = t + rect.size.height - 1;
    &&& corners_drawn(b, rect, g, color)
    &&& edge_drawn(b, rect, bt, g.horizontal, color)
    &&& side_drawn(b, rect, l, g.vertical, color)
    &&& side_drawn(b, rect, r, g.vertical, color)
    &&& top_edge ==> edge_drawn(b, rect, t, g.horizontal, color)
}

/// Every cell strictly inside the outline of `rect` is unchanged.
pub open spec fn inside_unchanged(before: Buffer, after: Buffer, rect: Rect) -> bool {
    forall|x: int, y: int|
        #![trigger after.cell_at(x, y)]
        before.in_bounds(x, y) && rect.point.x < x < rect.point.x + rect.size.width - 1 && rect.point.y
            < y < rect.point.y + rect.size.height - 1 ==> after.cell_at(x, y) == before.cell_at(x, y)
}

/// Text written from (`x0`, `y0`) for at most `max_width` graphemes leaves
/// every cell off that run alone.
proof fn lemma_string_spares(
    before: Buffer,
    after: Buffer,
    x0: u16,
    y0: u16,
    max_width: u16,
    s: Seq<char>,
    fg: Color,
    x: int,
    y: int,
)
    requires
        before.wf(),
        after.size == before.size,
        wrote_string(before, after, x0, y0, max_width, s, fg, None, Modifier { bits: 0 }),
        before.in_bounds(x, y),
        y != y0 || x < x0 || x >= x0 + max_width,
    ensures
        after.cell_at(x, y) == before.cell_at(x, y),
{
    let w = before.size.width as int;
    lemma_index_in_bounds(w, before.size.height as int, x, y);
    lemma_rows_apart(w, x, y, y0 as int);
    let i = before.index_of(x, y);
    assert(after.cells@[i] == before.cells@[i]);
}

/// A child inside an outline, two columns in from each side and one row in
/// from the top and the bottom, with an optional title over the top edge.
#[derive(Clone, Debug)]
pub struct Border<V> {
    pub child: V,
    pub border_color: Color,
    pub border_style: BorderStyle,
    pub title: Option<String>,
}

impl<V> Sealed for Border<V> {
}

impl<V> Border<V> {
    pub fn new(child: V, border_color: Color) -> (r: Border<V>)
        ensures
            r.child == child,
            r.border_color == border_color,
            r.border_style == BorderStyle::Single,
            r.title is None,
    {
        Border { child, border_color, border_style: BorderStyle::Single, title: None }
    }

    pub fn border_color(self, border_color: Color) -> (r: Border<V>)
        ensures
            r == (Border { border_color, ..self }),
    {
        Border { border_color, ..self }
    }

    pub fn border_style(self, border_style: BorderStyle) -> (r: Border<V>)
        ensures
            r == (Border { border_style, ..self }),
    {
        Border { border_style, ..self }
    }

    pub fn title(self, title: &str) -> (r: Border<V>)
        ensures
            r.child == self.child,
            r.border_color == self.border_color,
            r.border_style == self.border_style,
            r.title matches Some(t) && t@ == title@,
    {
        Border { title: Some(title.to_owned()), ..self }
    }

    /// Puts the glyph `symbol` in `color` at (`x`, `y`), keeping that cell's
    /// background and attributes.
    fn draw_corner(buffer: &mut Buffer, x: u16, y: u16, symbol: char, color: Color)
        requires
            old(buffer).wf(),
        ensures
            final(buffer).wf(),
            final(buffer).size == old(buffer).size,
            put_symbol(*old(buffer), *final(buffer), x, y, symbol, color),
    {
        let ghost before = *buffer;
        buffer.set_symbol_at(x, y, symbol, color);
        proof {
            let w = before.size.width as int;
            assert forall|xx: int, yy: int|
                #![trigger buffer.cell_at(xx, yy)]
                before.in_bounds(xx, yy) && !(xx == x && yy == y) implies buffer.cell_at(xx, yy)
                == before.cell_at(xx, yy) by {
                lemma_index_in_bounds(w, before.size.height as int, xx, yy);
                if before.in_bounds(x as int, y as int) {
                    lemma_cells_distinct(w, xx, yy, x as int, y as int);
                }
            }
        }
    }

    /// Drawing the outline of `rect` takes `before` to `after`: the four
    /// corners, the top and bottom edges between them, the two sides between
    /// them, then the title, when there is one, written from the second
    /// column of the top row for at most the width less two. Nothing else
    /// changes.
    pub open spec fn spec_draw_borders(&self, before: Buffer, after: Buffer, rect: Rect) -> bool {
        let l = rect.point.x;
        let t = rect.point.y;
        let r = sat_sub(sat_add(l as int, rect.size.width as int), 1) as u16;
        let bt = sat_sub(sat_add(t as int, rect.size.height as int), 1) as u16;
        let l1 = sat_add(l as int, 1) as u16;
        let t1 = sat_add(t as int, 1) as u16;
        let g = self.border_style.spec_components();
        let c = self.border_color;
        exists|bs: Seq<Buffer>|
            #![trigger bs.len()]
            {
                &&& bs.len() == 9
                &&& bs[0] == before
                &&& put_symbol(bs[0], bs[1], l, t, g.top_left, c)
                &&& put_symbol(bs[1], bs[2], r, t, g.top_right, c)
                &&& put_symbol(bs[2], bs[3], l, bt, g.bottom_left, c)
                &&& put_symbol(bs[3], bs[4], r, bt, g.bottom_right, c)
                &&& drew_line(bs[4], bs[5], |xx: int, yy: int| yy == t && l1 <= xx < r, g.horizontal, c)
                &&& drew_line(bs[5], bs[6], |xx: int, yy: int| yy == bt && l1 <= xx < r, g.horizontal, c)
                &&& drew_line(bs[6], bs[7], |xx: int, yy: int| xx == l && t1 <= yy < bt, g.vertical, c)
                &&& drew_line(bs[7], bs[8], |xx: int, yy: int| xx == r && t1 <= yy < bt, g.vertical, c)
                &&& match self.title {
                    Some(s) => wrote_string(
                        bs[8],
                        after,
                        l1,
                        t,
                        min_int(
                            display_width_of(s@) as int,
                            sat_sub(rect.size.width as int, 2),
                        ) as u16,
                        s@,
                        c,
                        None,
                        Modifier { bits: 0 },
                    ),
                    None => after == bs[8],
                }
            }
    }

    /// Draws the outline of `rect`: four corners, the top and bottom edges,
    /// the two sides, then the title over the top edge from its second
    /// column.
    fn draw_borders(&self, buffer: &mut Buffer, rect: Rect)
        requires
            old(buffer).wf(),
        ensures
            final(buffer).wf(),
            final(buffer).size == old(buffer).size,
            self.spec_draw_borders(*old(buffer), *final(buffer), rect),
            outline_fits(rect) ==> inside_unchanged(*old(buffer), *final(buffer), rect),
            outline_fits(rect) ==> outline_drawn(
                *final(buffer),
                rect,
                self.border_style.spec_components(),
                self.border_color,
                self.title is None,
            ),
    {
        let left = rect.left();
        let top = rect.top();
        let right = rect.right().saturating_sub(1);
        let bottom = rect.bottom().saturating_sub(1);
        let g = self.border_style.components();
        let color = self.border_color;
        let ghost b0 = *buffer;
        Self::draw_corner(buffer, left, top, g.top_left, color);
        let ghost b1 = *buffer;
        Self::draw_corner(buffer, right, top, g.top_right, color);
        let ghost b2 = *buffer;
        Self::draw_corner(buffer, left, bottom, g.bottom_left, color);
        let ghost b3 = *buffer;
        Self::draw_corner(buffer, right, bottom, g.bottom_right, color);
        let ghost b4 = *buffer;
        proof {
            if outline_fits(rect) {
                assert(corners_drawn(b4, rect, g, color)) by {
                    if b0.in_bounds(left as int, top as int) {
                        assert(b4.cell_at(left as int, top as int) == b1.cell_at(left as int, top as int));
                    }
                    if b0.in_bounds(right as int, top as int) {
                        assert(b4.cell_at(right as int, top as int) == b2.cell_at(right as int, top as int));
                    }
                    if b0.in_bounds(left as int, bottom as int) {
                        assert(b4.cell_at(left as int, bottom as int) == b3.cell_at(left as int, bottom as int));
                    }
                }
            }
        }
        draw_horizontal_line(buffer, top, left.saturating_add(1), right, g.horizontal, color);
        let ghost b5 = *buffer;
        draw_horizontal_line(buffer, bottom, left.saturating_add(1), right, g.horizontal, color);
        let ghost b6 = *buffer;
        proof {
            if outline_fits(rect) {
                assert(corners_drawn(b6, rect, g, color)) by {
                    if b0.in_bounds(left as int, top as int) {
                        assert(b6.cell_at(left as int, top as int) == b4.cell_at(left as int, top as int));
                    }
                    if b0.in_bounds(right as int, top as int) {
                        assert(b6.cell_at(right as int, top as int) == b4.cell_at(right as int, top as int));
                    }
                    if b0.in_bounds(left as int, bottom as int) {
                        assert(b6.cell_at(left as int, bottom as int) == b4.cell_at(left as int, bottom as int));
                    }
                    if b0.in_bounds(right as int, bottom as int) {
                        assert(b6.cell_at(right as int, bottom as int) == b4.cell_at(right as int, bottom as int));
                    }
                }
                assert(edge_drawn(b6, rect, top as int, g.horizontal, color)) by {
                    assert forall|x: int|
                        #![trigger b6.cell_at(x, top as int)]
                        left < x < right implies shows(b6, x, top as int, g.horizontal, color) by {
                        if b0.in_bounds(x, top as int) {
                            assert(b6.cell_at(x, top as int) == b5.cell_at(x, top as int));
                        }
                    }
                }
            }
        }
        draw_vertical_line(buffer, left, top.saturating_add(1), bottom, g.vertical, color);
        let ghost b7 = *buffer;
        draw_vertical_line(buffer, right, top.saturating_add(1), bottom, g.vertical, color);
        let ghost b8 = *buffer;
        proof {
            if outline_fits(rect) {
                assert(corners_drawn(b8, rect, g, color)) by {
                    if b0.in_bounds(left as int, top as int) {
                        assert(b8.cell_at(left as int, top as int) == b6.cell_at(left as int, top as int));
                    }
                    if b0.in_bounds(right as int, top as int) {
                        assert(b8.cell_at(right as int, top as int) == b6.cell_at(right as int, top as int));
                    }
                    if b0.in_bounds(left as int, bottom as int) {
                        assert(b8.cell_at(left as int, bottom as int) == b6.cell_at(left as int, bottom as int));
                    }
                    if b0.in_bounds(right as int, bottom as int) {
                        assert(b8.cell_at(right as int, bottom as int) == b6.cell_at(right as int, bottom as int));
                    }
                }
                assert(edge_drawn(b8, rect, top as int, g.horizontal, color)) by {
                    assert forall|x: int|
                        #![trigger b8.cell_at(x, top as int)]
                        left < x < right implies shows(b8, x, top as int, g.horizontal, color) by {
                        if b0.in_bounds(x, top as int) {
                            assert(b8.cell_at(x, top as int) == b6.cell_at(x, top as int));
                        }
                    }
                }
                assert(edge_drawn(b8, rect, bottom as int, g.horizontal, color)) by {
                    assert forall|x: int|
                        #![trigger b8.cell_at(x, bottom as int)]
                        left < x < right implies shows(b8, x, bottom as int, g.horizontal, color) by {
                        if b0.in_bounds(x, bottom as int) {
                            assert(b8.cell_at(x, bottom as int) == b6.cell_at(x, bottom as int));
                        }
                    }
                }
                assert(side_drawn(b8, rect, left as int, g.vertical, color)) by {
                    assert forall|y: int|
                        #![trigger b8.cell_at(left as int, y)]
                        top < y < bottom implies shows(b8, left as int, y, g.vertical, color) by {
                        if b0.in_bounds(left as int, y) {
                            assert(b8.cell_at(left as int, y) == b7.cell_at(left as int, y));
                        }
                    }
                }
            }
        }
        proof {
            if outline_fits(rect) {
                assert(inside_unchanged(b0, b8, rect)) by {
                    assert forall|x: int, y: int|
                        #![trigger b8.cell_at(x, y)]
                        b0.in_bounds(x, y) && left < x < right && top < y < bottom implies b8.cell_at(x, y)
                        == b0.cell_at(x, y) by {
                        assert(b8.cell_at(x, y) == b7.cell_at(x, y));
                        assert(b7.cell_at(x, y) == b6.cell_at(x, y));
                        assert(b6.cell_at(x, y) == b5.cell_at(x, y));
                        assert(b5.cell_at(x, y) == b4.cell_at(x, y));
                        assert(b4.cell_at(x, y) == b3.cell_at(x, y));
                        assert(b3.cell_at(x, y) == b2.cell_at(x, y));
                        assert(b2.cell_at(x, y) == b1.cell_at(x, y));
                        assert(b1.cell_at(x, y) == b0.cell_at(x, y));
                    }
                }
            }
        }
        if let Some(title) = &self.title {
            let title_rect = Rect {
                point: Point { x: left.saturating_add(1), y: top },
                size: Size { width: rect.size.width.saturating_sub(2), height: 1 },
            };
            let context = Context { rect: title_rect, fg: color, modifier: Modifier::empty() };
            let mut id = ViewId::empty();
            let mut state = AppState::new();
            title.render(&mut id, context, &mut state, buffer);
            proof {
                if outline_fits(rect) {
                    let mw = min_int(display_width_of(title@) as int, title_rect.size.width as int) as u16;
                    let b9 = *buffer;
                    assert(inside_unchanged(b0, b9, rect)) by {
                        assert forall|x: int, y: int|
                            #![trigger b9.cell_at(x, y)]
                            b0.in_bounds(x, y) && left < x < right && top < y < bottom implies b9.cell_at(
                                x,
                                y,
                            ) == b0.cell_at(x, y) by {
                            lemma_string_spares(b8, b9, title_rect.point.x, top, mw, title@, color, x, y);
                            assert(b8.cell_at(x, y) == b0.cell_at(x, y));
                        }
                    }
                    assert(corners_drawn(b9, rect, g, color)) by {
                        if b8.in_bounds(left as int, top as int) {
                            lemma_string_spares(b8, b9, title_rect.point.x, top, mw, title@, color, left as int, top as int);
                        }
                        if b8.in_bounds(right as int, top as int) {
                            lemma_string_spares(b8, b9, title_rect.point.x, top, mw, title@, color, right as int, top as int);
                        }
                        if b8.in_bounds(left as int, bottom as int) {
                            lemma_string_spares(b8, b9, title_rect.point.x, top, mw, title@, color, left as int, bottom as int);
                        }
                        if b8.in_bounds(right as int, bottom as int) {
                            lemma_string_spares(b8, b9, title_rect.point.x, top, mw, title@, color, right as int, bottom as int);
                        }
                    }
                    assert(edge_drawn(b9, rect, bottom as int, g.horizontal, color)) by {
                        assert forall|x: int|
                            #![trigger b9.cell_at(x, bottom as int)]
                            left < x < right implies shows(b9, x, bottom as int, g.horizontal, color) by {
                            if b8.in_bounds(x, bottom as int) {
                                lemma_string_spares(b8, b9, title_rect.point.x, top, mw, title@, color, x, bottom as int);
                            }
                        }
                    }
                    assert(side_drawn(b9, rect, left as int, g.vertical, color)) by {
                        assert forall|y: int|
                            #![trigger b9.cell_at(left as int, y)]
                            top < y < bottom implies shows(b9, left as int, y, g.vertical, color) by {
                            if b8.in_bounds(left as int, y) {
                                lemma_string_spares(b8, b9, title_rect.point.x, top, mw, title@, color, left as int, y);
                            }
                        }
                    }
                    assert(side_drawn(b9, rect, right as int, g.vertical, color)) by {
                        assert forall|y: int|
                            #![trigger b9.cell_at(right as int, y)]
                            top < y < bottom implies shows(b9, right as int, y, g.vertical, color) by {
                            if b8.in_bounds(right as int, y) {
                                lemma_string_spares(b8, b9, title_rect.point.x, top, mw, title@, color, right as int, y);
                            }
                        }
                    }
                }
            }
        }
        proof {
            let bs = seq![b0, b1, b2, b3, b4, b5, b6, b7, b8];
            assert(bs[1] == b1 && bs[2] == b2 && bs[3] == b3 && bs[4] == b4);
            assert(bs[5] == b5 && bs[6] == b6 && bs[7] == b7 && bs[8] == b8);
            assert(bs.len() == 9 && bs[0] == b0);
        }
    }
}

impl<V: View> View for Border<V> {
    /// The child's size for the proposal less the margins, plus the margins,
    /// clamped to the proposal.
    open spec fn spec_size(&self, proposed: Size) -> Size {
        self.child.spec_size(proposed.spec_inset(2, 2, 1, 1)).spec_outset(2, 2, 1, 1).spec_min(
            proposed,
        )
    }

    /// The child is rendered inside the margins of the border's own
    /// rectangle, the border's size at the context's origin; then the
    /// outline and the title are drawn around it.
    open spec fn spec_render(
        &self,
        id: Seq<u64>,
        ctx: Context,
        st: Map<Seq<u64>, u64>,
        b: Buffer,
        st2: Map<Seq<u64>, u64>,
        b2: Buffer,
    ) -> bool {
        let outer = Rect { point: ctx.rect.point, size: self.spec_size(ctx.rect.size) };
        exists|b1: Buffer|
            #[trigger] self.child.spec_render(
                id,
                Context { rect: outer.spec_inset(2, 2, 1, 1), ..ctx },
                st,
                b,
                st2,
                b1,
            ) && self.spec_draw_borders(b1, b2, outer)
    }

    fn size(&self, proposed: Size) -> (r: Size) {
        let inset = proposed.inset_by(2, 2, 1, 1);
        let child_size = self.child.size(inset);
        child_size.outset_by(2, 2, 1, 1).min(proposed)
    }

    /// The child is rendered inside the margins, then the outline is drawn
    /// around the border's own size at the context's origin.
    fn render(&self, id: &mut ViewId, context: Context, state: &mut AppState, buffer: &mut Buffer)
        ensures
            outline_fits(Rect { point: context.rect.point, size: self.spec_size(context.rect.size) })
                ==> outline_drawn(
                *final(buffer),
                Rect { point: context.rect.point, size: self.spec_size(context.rect.size) },
                self.border_style.spec_components(),
                self.border_color,
                self.title is None,
            ),
    {
        let size = self.size(context.rect.size);
        let border_context = context.with_size(size);
        let inner_context = border_context.inset_by(2, 2, 1, 1);
        self.child.render(id, inner_context, state, buffer);
        let ghost b1 = *buffer;
        self.draw_borders(buffer, border_context.rect);
        proof {
            assert(self.spec_draw_borders(b1, *buffer, border_context.rect));
        }
    }
}

} // verus!
