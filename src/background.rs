use crate::buffer::Buffer;
use crate::color::{Color, Modifier};
use crate::private::Sealed;
use crate::buffer::{lemma_cells_distinct, lemma_index_in_bounds, styled};
use crate::size::{sat_add, Rect, Size};
use crate::view::{AppState, Context, View, ViewId};
use vstd::prelude::*;
use vstd::view::View as _;

verus! {

/// A view drawn over a fill of the same size.
#[derive(Clone, Debug)]
pub struct Background<V, BG> {
    pub background: BG,
    pub view: V,
}

impl<V, BG> Sealed for Background<V, BG> {
}

impl<V: View, BG: View> View for Background<V, BG> {
    open spec fn spec_size(&self, proposed: Size) -> Size {
        self.view.spec_size(proposed)
    }

    /// The fill, sized like the view, is rendered under segment 0, then the
    /// view over it under segment 1.
    open spec fn spec_render(
        &self,
        id: Seq<u64>,
        ctx: Context,
        st: Map<Seq<u64>, u64>,
        b: Buffer,
        st2: Map<Seq<u64>, u64>,
        b2: Buffer,
    ) -> bool {
        exists|b1: Buffer, st1: Map<Seq<u64>, u64>|
            #[trigger] self.background.spec_render(
                id.push(0),
                Context {
                    rect: Rect { point: ctx.rect.point, size: self.view.spec_size(ctx.rect.size) },
                    ..ctx
                },
                st,
                b,
                st1,
                b1,
            ) && self.view.spec_render(id.push(1), ctx, st1, b1, st2, b2)
    }

    fn size(&self, proposed: Size) -> (r: Size) {
        self.view.size(proposed)
    }

    /// The fill first, sized like the view, under segment 0; then the view
    /// under segment 1.
    fn render(&self, id: &mut ViewId, context: Context, state: &mut AppState, buffer: &mut Buffer) {
        let size = self.view.size(context.rect.size);
        id.push(0);
        self.background.render(id, context.with_size(size), state, buffer);
        id.pop();
        proof {
            assert(old(id)@.push(0).drop_last() =~= old(id)@);
        }
        let ghost b1 = *buffer;
        let ghost st1 = state.view();
        id.push(1);
        self.view.render(id, context, state, buffer);
        id.pop();
        proof {
            assert(self.view.spec_render(old(id)@.push(1), context, st1, b1, state.view(), *buffer));
        }
    }
}

/// A solid block of one background color.
#[derive(Clone, Copy, Debug, PartialEq, Eq, Structural)]
pub struct FillColor {
    pub color: Color,
}

impl Sealed for FillColor {
}

impl View for FillColor {
    /// A fill takes all the room it is offered.
    open spec fn spec_size(&self, proposed: Size) -> Size {
        proposed
    }

    /// The rectangle is filled; the state is untouched.
    open spec fn spec_render(
        &self,
        id: Seq<u64>,
        ctx: Context,
        st: Map<Seq<u64>, u64>,
        b: Buffer,
        st2: Map<Seq<u64>, u64>,
        b2: Buffer,
    ) -> bool {
        st2 == st && filled(b, b2, ctx.rect, self.color)
    }

    fn size(&self, proposed: Size) -> (r: Size) {
        proposed
    }

    /// Every cell of the rectangle, where the buffer has one, becomes a blank
    /// on the fill color.
    fn render(&self, id: &mut ViewId, context: Context, state: &mut AppState, buffer: &mut Buffer) {
        let point = context.rect.point;
        let size = context.rect.size;
        let bottom = point.y.saturating_add(size.height);
        let right = point.x.saturating_add(size.width);
        let w = buffer.size.width;
        let mut y = point.y;
        while y < bottom
            invariant
                buffer.wf(),
                buffer.size == old(buffer).size,
                w == buffer.size.width,
                point.y <= y,
                right == sat_add(point.x as int, size.width as int),
                bottom == sat_add(point.y as int, size.height as int),
                point.y < bottom ==> y <= bottom,
                point.y >= bottom ==> y == point.y,
                fill_region(*old(buffer), *buffer, |xx: int, yy: int| point.x <= xx < right && point.y <= yy < y, self.color),
            decreases bottom - y,
        {
            let mut x = point.x;
            while x < right
                invariant
                    buffer.wf(),
                    buffer.size == old(buffer).size,
                    w == buffer.size.width,
                    point.y <= y < bottom,
                    point.x <= x,
                    point.x < right ==> x <= right,
                    point.x >= right ==> x == point.x,
                    fill_region(
                        *old(buffer),
                        *buffer,
                        |xx: int, yy: int| (point.x <= xx < right && point.y <= yy < y) || (yy == y && point.x <= xx < x),
                        self.color,
                    ),
                decreases right - x,
            {
                let ghost before = *buffer;
                buffer.set_char_at(x, y, ' ', Color::Reset, Some(self.color), Modifier::empty());
                proof {
                    assert forall|xx: int, yy: int|
                        #![trigger buffer.cell_at(xx, yy)]
                        old(buffer).in_bounds(xx, yy) && !(xx == x && yy == y) implies buffer.cell_at(xx, yy)
                        == before.cell_at(xx, yy) by {
                        lemma_index_in_bounds(w as int, before.size.height as int, xx, yy);
                        if before.in_bounds(x as int, y as int) {
                            lemma_cells_distinct(w as int, xx, yy, x as int, y as int);
                        }
                    }
                }
                x += 1;
            }
            y += 1;
        }
    }
}

/// `after` is `before` with a blank on `color` at each position of the
/// buffer for which `in_region` holds; every other cell is unchanged.
pub open spec fn fill_region(before: Buffer, after: Buffer, in_region: spec_fn(int, int) -> bool, color: Color) -> bool {
    forall|x: int, y: int|
        #![trigger after.cell_at(x, y)]
        before.in_bounds(x, y) ==> if in_region(x, y) {
            styled(after.cell_at(x, y), before.cell_at(x, y), seq![' '], Color::Reset, Some(color), Modifier { bits: 0 })
        } else {
            after.cell_at(x, y) == before.cell_at(x, y)
        }
}

/// `after` is `before` with the cells of `rect`, where the buffer has them,
/// filled with blanks on `color`.
pub open spec fn filled(before: Buffer, after: Buffer, rect: Rect, color: Color) -> bool {
    fill_region(
        before,
        after,
        |x: int, y: int|
            rect.point.x <= x < sat_add(rect.point.x as int, rect.size.width as int) && rect.point.y <= y
                < sat_add(rect.point.y as int, rect.size.height as int),
        color,
    )
}

} // verus!
