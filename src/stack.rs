use crate::alignment::{Alignment, HorizontalAlignment, VerticalAlignment};
use crate::buffer::Buffer;
use crate::private::Sealed;
use crate::size::{max_int, min_int, sat_add, sat_sub, Point, Rect, Size, DIM_MAX};
use crate::view::{AppState, Context, View, ViewId};
use crate::view_tuple::ViewTuple;
use vstd::prelude::*;
use vstd::view::View as _;

verus! {

/// The extent of `s` along the layout axis: its height in a vertical stack,
/// its width in a horizontal one.
pub open spec fn main_of(vertical: bool, s: Size) -> int {
    if vertical {
        s.height as int
    } else {
        s.width as int
    }
}

/// The extent of `s` across the layout axis.
pub open spec fn cross_of(vertical: bool, s: Size) -> int {
    if vertical {
        s.width as int
    } else {
        s.height as int
    }
}

/// The size with extent `main` along the layout axis and `cross` across it.
pub open spec fn along(vertical: bool, main: u16, cross: u16) -> Size {
    if vertical {
        Size { width: cross, height: main }
    } else {
        Size { width: main, height: cross }
    }
}

/// How much more room child `i` takes along the axis when offered all of it
/// than when offered none.
pub open spec fn flex_of<VT: ViewTuple>(c: VT, vertical: bool, cross: u16, i: int) -> int {
    sat_sub(
        main_of(vertical, c.spec_child_size(i, along(vertical, DIM_MAX, cross))),
        main_of(vertical, c.spec_child_size(i, along(vertical, 0, cross))),
    )
}

pub open spec fn flexes<VT: ViewTuple>(c: VT, vertical: bool, cross: u16) -> Seq<int> {
    Seq::new(c.spec_len(), |i: int| flex_of(c, vertical, cross, i))
}

/// `order` with `i` placed after every entry, counted from the end, that is
/// no more flexible than `i`.
pub open spec fn insert_by_flex(order: Seq<usize>, flex: Seq<int>, i: usize) -> Seq<usize>
    decreases order.len(),
{
    if order.len() == 0 {
        seq![i]
    } else if flex[order.last() as int] <= flex[i as int] {
        order.push(i)
    } else {
        insert_by_flex(order.drop_last(), flex, i).push(order.last())
    }
}

/// The children `0..n` from least to most flexible; children of equal
/// flexibility keep their order.
pub open spec fn flex_order(flex: Seq<int>, n: nat) -> Seq<usize>
    decreases n,
{
    if n == 0 {
        Seq::empty()
    } else {
        insert_by_flex(flex_order(flex, (n - 1) as nat), flex, (n - 1) as usize)
    }
}

/// The layout once the first `t` children of `order` have been measured, as
/// (budget left, extent along the axis, largest extent across it, size of
/// each child by position). Each child is offered an equal share of what is
/// left for it and those after it; what it takes, and the spacing after it,
/// come off the budget.
pub open spec fn allocate<VT: ViewTuple>(
    c: VT,
    vertical: bool,
    proposed: Size,
    spacing: int,
    order: Seq<usize>,
    t: nat,
) -> (int, int, int, Seq<Size>)
    decreases t,
{
    if t == 0 {
        (
            main_of(vertical, proposed),
            0,
            0,
            Seq::new(c.spec_len(), |i: int| Size { width: 0, height: 0 }),
        )
    } else {
        let prev = allocate(c, vertical, proposed, spacing, order, (t - 1) as nat);
        let child = order[t - 1] as int;
        let offer = prev.0 / (c.spec_len() - (t - 1));
        let s = c.spec_child_size(
            child,
            along(vertical, offer as u16, cross_of(vertical, proposed) as u16),
        );
        let m = main_of(vertical, s);
        (
            sat_sub(sat_sub(prev.0, m), spacing),
            prev.1 + m + if t > 1 {
                spacing
            } else {
                0
            },
            max_int(prev.2, cross_of(vertical, s)),
            prev.3.update(child, s),
        )
    }
}

/// The visiting order of a stack's children for a proposal.
pub open spec fn stack_order<VT: ViewTuple>(c: VT, vertical: bool, proposed: Size) -> Seq<usize> {
    flex_order(flexes(c, vertical, cross_of(vertical, proposed) as u16), c.spec_len())
}

/// The complete layout of a stack's children for a proposal.
pub open spec fn stack_layout<VT: ViewTuple>(c: VT, vertical: bool, proposed: Size, spacing: int) -> (
    int,
    int,
    int,
    Seq<Size>,
) {
    allocate(c, vertical, proposed, spacing, stack_order(c, vertical, proposed), c.spec_len())
}

/// The size of a stack: the children's extents plus spacing along the axis,
/// the largest child across it, each clamped to the proposal.
pub open spec fn stack_size<VT: ViewTuple>(c: VT, vertical: bool, proposed: Size, spacing: int) -> Size {
    let l = stack_layout(c, vertical, proposed, spacing);
    along(
        vertical,
        min_int(l.1, main_of(vertical, proposed)) as u16,
        min_int(l.2, cross_of(vertical, proposed)) as u16,
    )
}

fn main_extent(vertical: bool, s: Size) -> (r: u16)
    ensures
        r == main_of(vertical, s),
{
    if vertical {
        s.height
    } else {
        s.width
    }
}

fn cross_extent(vertical: bool, s: Size) -> (r: u16)
    ensures
        r == cross_of(vertical, s),
{
    if vertical {
        s.width
    } else {
        s.height
    }
}

fn make_along(vertical: bool, main: u16, cross: u16) -> (r: Size)
    ensures
        r == along(vertical, main, cross),
{
    if vertical {
        Size { width: cross, height: main }
    } else {
        Size { width: main, height: cross }
    }
}

proof fn lemma_insert_at(o: Seq<usize>, flex: Seq<int>, i: usize, j: int)
    requires
        0 <= j <= o.len(),
        forall|k: int| j <= k < o.len() ==> flex[#[trigger] o[k] as int] > flex[i as int],
        j > 0 ==> flex[o[j - 1] as int] <= flex[i as int],
    ensures
        insert_by_flex(o, flex, i) == o.insert(j, i),
    decreases o.len(),
{
    if o.len() == 0 {
        assert(seq![i] =~= o.insert(j, i));
    } else if flex[o.last() as int] <= flex[i as int] {
        assert(j == o.len());
        assert(o.push(i) =~= o.insert(j, i));
    } else {
        lemma_insert_at(o.drop_last(), flex, i, j);
        assert(o.drop_last().insert(j, i).push(o.last()) =~= o.insert(j, i));
    }
}

fn measure_flex<VT: ViewTuple>(c: &VT, vertical: bool, cross: u16) -> (r: Vec<u16>)
    ensures
        r@.len() == c.spec_len(),
        forall|i: int| 0 <= i < r@.len() ==> r@[i] as int == flex_of(*c, vertical, cross, i),
{
    let n = c.length();
    let mut flex: Vec<u16> = Vec::new();
    let mut i: usize = 0;
    while i < n
        invariant
            n == c.spec_len(),
            i <= n,
            flex@.len() == i,
            forall|k: int| 0 <= k < i ==> flex@[k] as int == flex_of(*c, vertical, cross, k),
        decreases n - i,
    {
        let lower = c.child_size(i, make_along(vertical, 0, cross));
        let upper = c.child_size(i, make_along(vertical, DIM_MAX, cross));
        flex.push(main_extent(vertical, upper).saturating_sub(main_extent(vertical, lower)));
        i += 1;
    }
    flex
}

fn order_by_flex(flex: &Vec<u16>, Ghost(fs): Ghost<Seq<int>>) -> (r: Vec<usize>)
    requires
        fs.len() == flex@.len(),
        forall|i: int| 0 <= i < fs.len() ==> fs[i] == flex@[i] as int,
    ensures
        r@ == flex_order(fs, flex@.len()),
        r@.len() == flex@.len(),
        forall|k: int| 0 <= k < r@.len() ==> r@[k] < flex@.len(),
{
    let n = flex.len();
    let mut order: Vec<usize> = Vec::new();
    let mut i: usize = 0;
    while i < n
        invariant
            n == flex@.len(),
            fs.len() == flex@.len(),
            forall|k: int| 0 <= k < fs.len() ==> fs[k] == flex@[k] as int,
            i <= n,
            order@ == flex_order(fs, i as nat),
            order@.len() == i,
            forall|k: int| 0 <= k < order@.len() ==> order@[k] < i,
        decreases n - i,
    {
        let mut j: usize = order.len();
        while j > 0 && flex[order[j - 1]] > flex[i]
            invariant
                n == flex@.len(),
                fs.len() == flex@.len(),
                forall|k: int| 0 <= k < fs.len() ==> fs[k] == flex@[k] as int,
                i < n,
                j <= order@.len(),
                order@.len() == i,
                forall|k: int| 0 <= k < order@.len() ==> order@[k] < i,
                forall|k: int| j <= k < order@.len() ==> fs[#[trigger] order@[k] as int] > fs[i as int],
            decreases j,
        {
            j -= 1;
        }
        proof {
            lemma_insert_at(order@, fs, i, j as int);
        }
        let ghost before = order@;
        order.insert(j, i);
        proof {
            assert forall|k: int| 0 <= k < order@.len() implies order@[k] < i + 1 by {
                if k < j {
                    assert(order@[k] == before[k]);
                } else if k > j {
                    assert(order@[k] == before[k - 1]);
                }
            }
        }
        i += 1;
    }
    order
}

/// Lays out a stack's children for `proposed`: the size of each child by
/// position, the extent along the axis clamped at `DIM_MAX`, and the largest
/// extent across it.
fn layout_children<VT: ViewTuple>(c: &VT, vertical: bool, proposed: Size, spacing: u16) -> (r: (
    Vec<Size>,
    u16,
    u16,
))
    ensures
        r.0@ == stack_layout(*c, vertical, proposed, spacing as int).3,
        r.1 as int == min_int(stack_layout(*c, vertical, proposed, spacing as int).1, DIM_MAX as int),
        r.2 as int == stack_layout(*c, vertical, proposed, spacing as int).2,
        r.0@.len() == c.spec_len(),
{
    let n = c.length();
    let cross = cross_extent(vertical, proposed);
    let flex = measure_flex(c, vertical, cross);
    let ghost fs = flexes(*c, vertical, cross);
    proof {
        assert(fs.len() == flex@.len());
    }
    let order = order_by_flex(&flex, Ghost(fs));
    let ghost ord = stack_order(*c, vertical, proposed);
    proof {
        assert(order@ == ord);
    }
    let mut sizes: Vec<Size> = Vec::new();
    let mut k: usize = 0;
    while k < n
        invariant
            k <= n,
            sizes@.len() == k,
            forall|i: int| 0 <= i < k ==> sizes@[i] == (Size { width: 0, height: 0 }),
        decreases n - k,
    {
        sizes.push(Size::zero());
        k += 1;
    }
    proof {
        assert(sizes@ =~= allocate(*c, vertical, proposed, spacing as int, ord, 0).3);
    }
    let mut remaining: u16 = main_extent(vertical, proposed);
    let mut total: u16 = 0;
    let mut max_cross: u16 = 0;
    let mut t: usize = 0;
    while t < n
        invariant
            n == c.spec_len(),
            t <= n,
            cross == cross_of(vertical, proposed),
            order@ == ord,
            order@.len() == n,
            forall|k: int| 0 <= k < order@.len() ==> order@[k] < n,
            sizes@.len() == n,
            remaining as int == allocate(*c, vertical, proposed, spacing as int, ord, t as nat).0,
            total as int == min_int(
                allocate(*c, vertical, proposed, spacing as int, ord, t as nat).1,
                DIM_MAX as int,
            ),
            max_cross as int == allocate(*c, vertical, proposed, spacing as int, ord, t as nat).2,
            sizes@ == allocate(*c, vertical, proposed, spacing as int, ord, t as nat).3,
            allocate(*c, vertical, proposed, spacing as int, ord, t as nat).1 >= 0,
        decreases n - t,
    {
        let child = order[t];
        let offer: u16 = ((remaining as usize) / (n - t)) as u16;
        let s = c.child_size(child, make_along(vertical, offer, cross));
        let m = main_extent(vertical, s);
        remaining = remaining.saturating_sub(m).saturating_sub(spacing);
        if t > 0 {
            total = total.saturating_add(spacing);
        }
        total = total.saturating_add(m);
        let sc = cross_extent(vertical, s);
        if sc > max_cross {
            max_cross = sc;
        }
        sizes.set(child, s);
        t += 1;
    }
    (sizes, total, max_cross)
}

/// Where child `i` starts along the axis, from the stack's origin: the
/// extents of the children before it, each followed by the spacing,
/// clamped at `DIM_MAX`.
pub open spec fn main_offset(sizes: Seq<Size>, vertical: bool, spacing: int, i: nat) -> int
    decreases i,
{
    if i == 0 {
        0
    } else {
        sat_add(
            sat_add(main_offset(sizes, vertical, spacing, (i - 1) as nat), main_of(vertical, sizes[i - 1])),
            spacing,
        )
    }
}

/// Children stacked top to bottom.
#[derive(Clone, Debug)]
pub struct VStack<VT> {
    pub children: VT,
    pub spacing: u16,
    pub alignment: HorizontalAlignment,
}

impl<VT> Sealed for VStack<VT> {
}

impl<VT: ViewTuple> VStack<VT> {
    pub fn new(children: VT, spacing: u16, alignment: HorizontalAlignment) -> (r: VStack<VT>)
        ensures
            r.children == children,
            r.spacing == spacing,
            r.alignment == alignment,
    {
        VStack { children, spacing, alignment }
    }

    pub fn alignment(self, alignment: HorizontalAlignment) -> (r: VStack<VT>)
        ensures
            r == (VStack { alignment, ..self }),
    {
        VStack { alignment, ..self }
    }

    pub fn spacing(self, spacing: u16) -> (r: VStack<VT>)
        ensures
            r == (VStack { spacing, ..self }),
    {
        VStack { spacing, ..self }
    }

    /// The size of each child by position, the widest child, and the total
    /// height with spacing (clamped at `DIM_MAX`).
    pub fn layout(&self, proposed: Size) -> (r: (Vec<Size>, u16, u16))
        ensures
            r.0@.len() == self.children.spec_len(),
            r.0@ == stack_layout(self.children, true, proposed, self.spacing as int).3,
            r.1 as int == stack_layout(self.children, true, proposed, self.spacing as int).2,
            r.2 as int == min_int(
                stack_layout(self.children, true, proposed, self.spacing as int).1,
                DIM_MAX as int,
            ),
    {
        let (sizes, total, max_cross) = layout_children(&self.children, true, proposed, self.spacing);
        (sizes, max_cross, total)
    }

    /// Where child `i` is rendered when the stack is given `rect`.
    pub open spec fn spec_placement(&self, rect: Rect, i: int) -> Rect {
        let l = stack_layout(self.children, true, rect.size, self.spacing as int);
        Rect {
            point: Point {
                x: sat_add(rect.point.x as int, self.alignment.spec_offset(l.2, l.3[i].width as int)) as u16,
                y: sat_add(rect.point.y as int, main_offset(l.3, true, self.spacing as int, i as nat)) as u16,
            },
            size: l.3[i],
        }
    }

    pub open spec fn spec_placements(&self, rect: Rect) -> Seq<Rect> {
        Seq::new(self.children.spec_len(), |i: int| self.spec_placement(rect, i))
    }

    /// The rectangle each child is rendered into, by position: the child's
    /// size from the layout, placed after the children before it along the
    /// axis and by the alignment across it.
    pub fn placements(&self, rect: Rect) -> (r: Vec<Rect>)
        ensures
            r@.len() == self.children.spec_len(),
            forall|i: int|
                0 <= i < r@.len() ==> {
                    let l = stack_layout(self.children, true, rect.size, self.spacing as int);
                    #[trigger] r@[i] == (Rect {
                        point: Point {
                            x: sat_add(rect.point.x as int, self.alignment.spec_offset(l.2, l.3[i].width as int)) as u16,
                            y: sat_add(rect.point.y as int, main_offset(l.3, true, self.spacing as int, i as nat)) as u16,
                        },
                        size: l.3[i],
                    })
                },
    {
        let (sizes, max_width, _) = self.layout(rect.size);
        let ghost l = stack_layout(self.children, true, rect.size, self.spacing as int);
        let n = self.children.length();
        let mut out: Vec<Rect> = Vec::new();
        let mut offset: u16 = 0;
        let mut i: usize = 0;
        while i < n
            invariant
                n == self.children.spec_len(),
                sizes@.len() == n,
                sizes@ == l.3,
                max_width as int == l.2,
                i <= n,
                out@.len() == i,
                offset as int == main_offset(l.3, true, self.spacing as int, i as nat),
                forall|k: int|
                    0 <= k < i ==> #[trigger] out@[k] == (Rect {
                        point: Point {
                            x: sat_add(rect.point.x as int, self.alignment.spec_offset(l.2, l.3[k].width as int)) as u16,
                            y: sat_add(rect.point.y as int, main_offset(l.3, true, self.spacing as int, k as nat)) as u16,
                        },
                        size: l.3[k],
                    }),
            decreases n - i,
        {
            let size = sizes[i];
            let cross_offset = self.alignment.offset(max_width, size.width);
            let point = Point {
                x: rect.point.x.saturating_add(cross_offset),
                y: rect.point.y.saturating_add(offset),
            };
            out.push(Rect { point, size });
            offset = offset.saturating_add(size.height).saturating_add(self.spacing);
            i += 1;
        }
        out
    }
}

impl<VT: ViewTuple> View for VStack<VT> {
    open spec fn spec_size(&self, proposed: Size) -> Size {
        stack_size(self.children, true, proposed, self.spacing as int)
    }

    /// Each child is rendered in turn, in order, into its placement, under
    /// the path extended by its segment.
    open spec fn spec_render(
        &self,
        id: Seq<u64>,
        ctx: Context,
        st: Map<Seq<u64>, u64>,
        b: Buffer,
        st2: Map<Seq<u64>, u64>,
        b2: Buffer,
    ) -> bool {
        children_render(self.children, id, ctx, self.spec_placements(ctx.rect), st, b, st2, b2)
    }

    fn size(&self, proposed: Size) -> (r: Size) {
        let (_, max_width, total_height) = self.layout(proposed);
        Size {
            width: if max_width < proposed.width { max_width } else { proposed.width },
            height: if total_height < proposed.height { total_height } else { proposed.height },
        }
    }

    fn render(&self, id: &mut ViewId, context: Context, state: &mut AppState, buffer: &mut Buffer) {
        let places = self.placements(context.rect);
        proof {
            assert(places@ =~= self.spec_placements(context.rect));
        }
        render_children(&self.children, &places, id, context, state, buffer);
    }
}

/// Children placed left to right.
#[derive(Clone, Debug)]
pub struct HStack<VT> {
    pub children: VT,
    pub spacing: u16,
    pub alignment: VerticalAlignment,
}

impl<VT> Sealed for HStack<VT> {
}

impl<VT: ViewTuple> HStack<VT> {
    pub fn new(children: VT, spacing: u16, alignment: VerticalAlignment) -> (r: HStack<VT>)
        ensures
            r.children == children,
            r.spacing == spacing,
            r.alignment == alignment,
    {
        HStack { children, spacing, alignment }
    }

    pub fn alignment(self, alignment: VerticalAlignment) -> (r: HStack<VT>)
        ensures
            r == (HStack { alignment, ..self }),
    {
        HStack { alignment, ..self }
    }

    pub fn spacing(self, spacing: u16) -> (r: HStack<VT>)
        ensures
            r == (HStack { spacing, ..self }),
    {
        HStack { spacing, ..self }
    }

    /// The size of each child by position, the total width with spacing
    /// (clamped at `DIM_MAX`), and the tallest child.
    pub fn layout(&self, proposed: Size) -> (r: (Vec<Size>, u16, u16))
        ensures
            r.0@.len() == self.children.spec_len(),
            r.0@ == stack_layout(self.children, false, proposed, self.spacing as int).3,
            r.1 as int == min_int(
                stack_layout(self.children, false, proposed, self.spacing as int).1,
                DIM_MAX as int,
            ),
            r.2 as int == stack_layout(self.children, false, proposed, self.spacing as int).2,
    {
        layout_children(&self.children, false, proposed, self.spacing)
    }

    /// Where child `i` is rendered when the stack is given `rect`.
    pub open spec fn spec_placement(&self, rect: Rect, i: int) -> Rect {
        let l = stack_layout(self.children, false, rect.size, self.spacing as int);
        Rect {
            point: Point {
                x: sat_add(rect.point.x as int, main_offset(l.3, false, self.spacing as int, i as nat)) as u16,
                y: sat_add(rect.point.y as int, self.alignment.spec_offset(l.2, l.3[i].height as int)) as u16,
            },
            size: l.3[i],
        }
    }

    pub open spec fn spec_placements(&self, rect: Rect) -> Seq<Rect> {
        Seq::new(self.children.spec_len(), |i: int| self.spec_placement(rect, i))
    }

    /// The rectangle each child is rendered into, by position: the child's
    /// size from the layout, placed after the children before it along the
    /// axis and by the alignment across it.
    pub fn placements(&self, rect: Rect) -> (r: Vec<Rect>)
        ensures
            r@.len() == self.children.spec_len(),
            forall|i: int|
                0 <= i < r@.len() ==> {
                    let l = stack_layout(self.children, false, rect.size, self.spacing as int);
                    #[trigger] r@[i] == (Rect {
                        point: Point {
                            x: sat_add(rect.point.x as int, main_offset(l.3, false, self.spacing as int, i as nat)) as u16,
                            y: sat_add(rect.point.y as int, self.alignment.spec_offset(l.2, l.3[i].height as int)) as u16,
                        },
                        size: l.3[i],
                    })
                },
    {
        let (sizes, _, max_height) = self.layout(rect.size);
        let ghost l = stack_layout(self.children, false, rect.size, self.spacing as int);
        let n = self.children.length();
        let mut out: Vec<Rect> = Vec::new();
        let mut offset: u16 = 0;
        let mut i: usize = 0;
        while i < n
            invariant
                n == self.children.spec_len(),
                sizes@.len() == n,
                sizes@ == l.3,
                max_height as int == l.2,
                i <= n,
                out@.len() == i,
                offset as int == main_offset(l.3, false, self.spacing as int, i as nat),
                forall|k: int|
                    0 <= k < i ==> #[trigger] out@[k] == (Rect {
                        point: Point {
                            x: sat_add(rect.point.x as int, main_offset(l.3, false, self.spacing as int, k as nat)) as u16,
                            y: sat_add(rect.point.y as int, self.alignment.spec_offset(l.2, l.3[k].height as int)) as u16,
                        },
                        size: l.3[k],
                    }),
            decreases n - i,
        {
            let size = sizes[i];
            let cross_offset = self.alignment.offset(max_height, size.height);
            let point = Point {
                x: rect.point.x.saturating_add(offset),
                y: rect.point.y.saturating_add(cross_offset),
            };
            out.push(Rect { point, size });
            offset = offset.saturating_add(size.width).saturating_add(self.spacing);
            i += 1;
        }
        out
    }
}

impl<VT: ViewTuple> View for HStack<VT> {
    open spec fn spec_size(&self, proposed: Size) -> Size {
        stack_size(self.children, false, proposed, self.spacing as int)
    }

    /// Each child is rendered in turn, in order, into its placement, under
    /// the path extended by its segment.
    open spec fn spec_render(
        &self,
        id: Seq<u64>,
        ctx: Context,
        st: Map<Seq<u64>, u64>,
        b: Buffer,
        st2: Map<Seq<u64>, u64>,
        b2: Buffer,
    ) -> bool {
        children_render(self.children, id, ctx, self.spec_placements(ctx.rect), st, b, st2, b2)
    }

    fn size(&self, proposed: Size) -> (r: Size) {
        let (_, total_width, max_height) = self.layout(proposed);
        Size {
            width: if total_width < proposed.width { total_width } else { proposed.width },
            height: if max_height < proposed.height { max_height } else { proposed.height },
        }
    }

    fn render(&self, id: &mut ViewId, context: Context, state: &mut AppState, buffer: &mut Buffer) {
        let places = self.placements(context.rect);
        proof {
            assert(places@ =~= self.spec_placements(context.rect));
        }
        render_children(&self.children, &places, id, context, state, buffer);
    }
}

} // verus!

verus! {

/// Child `i` takes the same extent along the axis whatever it is offered.
pub open spec fn is_rigid<VT: ViewTuple>(c: VT, vertical: bool, cross: u16, i: int) -> bool {
    forall|m: u16|
        #![trigger c.spec_child_size(i, along(vertical, m, cross))]
        main_of(vertical, c.spec_child_size(i, along(vertical, m, cross))) == main_of(
            vertical,
            c.spec_child_size(i, along(vertical, DIM_MAX, cross)),
        )
}

/// Child `i` takes exactly what it is offered along the axis.
pub open spec fn is_fully_flexible<VT: ViewTuple>(c: VT, vertical: bool, cross: u16, i: int) -> bool {
    forall|m: u16|
        #![trigger c.spec_child_size(i, along(vertical, m, cross))]
        main_of(vertical, c.spec_child_size(i, along(vertical, m, cross))) == m
}

/// The extent child `i` takes along the axis when offered all of it.
pub open spec fn natural_main<VT: ViewTuple>(c: VT, vertical: bool, cross: u16, i: int) -> int {
    main_of(vertical, c.spec_child_size(i, along(vertical, DIM_MAX, cross)))
}

/// The sum of the natural extents of the first `k` children.
pub open spec fn natural_sum<VT: ViewTuple>(c: VT, vertical: bool, cross: u16, k: nat) -> int
    decreases k,
{
    if k == 0 {
        0
    } else {
        natural_sum(c, vertical, cross, (k - 1) as nat) + natural_main(c, vertical, cross, k - 1)
    }
}

/// The spacing between `n` children.
pub open spec fn gaps(n: nat, spacing: int) -> int {
    if n == 0 {
        0
    } else {
        spacing * (n - 1)
    }
}

proof fn lemma_flex_order_identity(flex: Seq<int>, n: nat)
    requires
        n <= flex.len(),
        forall|i: int| 0 <= i < flex.len() ==> flex[i] == 0,
    ensures
        flex_order(flex, n) == Seq::new(n, |i: int| i as usize),
    decreases n,
{
    if n > 0 {
        lemma_flex_order_identity(flex, (n - 1) as nat);
        let o = flex_order(flex, (n - 1) as nat);
        if o.len() == 0 {
            assert(seq![(n - 1) as usize] =~= Seq::new(n, |i: int| i as usize));
        } else {
            assert(o.push((n - 1) as usize) =~= Seq::new(n, |i: int| i as usize));
        }
    }
}

proof fn lemma_allocate_rigid<VT: ViewTuple>(
    c: VT,
    vertical: bool,
    proposed: Size,
    spacing: int,
    t: nat,
)
    requires
        t <= c.spec_len(),
        c.spec_len() <= usize::MAX,
        spacing >= 0,
        forall|i: int|
            0 <= i < c.spec_len() ==> #[trigger] is_rigid(
                c,
                vertical,
                cross_of(vertical, proposed) as u16,
                i,
            ),
    ensures
        allocate(c, vertical, proposed, spacing, Seq::new(c.spec_len(), |i: int| i as usize), t).1
            == natural_sum(c, vertical, cross_of(vertical, proposed) as u16, t) + gaps(t, spacing),
        0 <= allocate(c, vertical, proposed, spacing, Seq::new(c.spec_len(), |i: int| i as usize), t).0
            <= DIM_MAX,
    decreases t,
{
    let order = Seq::new(c.spec_len(), |i: int| i as usize);
    let cross = cross_of(vertical, proposed) as u16;
    if t > 0 {
        lemma_allocate_rigid(c, vertical, proposed, spacing, (t - 1) as nat);
        let prev = allocate(c, vertical, proposed, spacing, order, (t - 1) as nat);
        let offer = prev.0 / (c.spec_len() - (t - 1));
        assert(0 <= offer <= prev.0) by (nonlinear_arith)
            requires
                0 <= prev.0,
                c.spec_len() - (t - 1) >= 1,
                offer == prev.0 / (c.spec_len() - (t - 1)),
        ;
        assert(order[t - 1] as int == t - 1);
        assert(cross_of(vertical, proposed) as u16 == cross);
        assert(is_rigid(c, vertical, cross, t - 1));
        let s = c.spec_child_size(t - 1, along(vertical, offer as u16, cross));
        assert(main_of(vertical, c.spec_child_size(t - 1, along(vertical, offer as u16, cross)))
            == natural_main(c, vertical, cross, t - 1));
        if t > 1 {
            assert(spacing * (t - 1) == spacing * (t - 2) + spacing) by (nonlinear_arith);
        } else {
            assert(spacing * 0 == 0);
        }
        assert(allocate(c, vertical, proposed, spacing, order, t).1 == prev.1 + main_of(vertical, s)
            + if t > 1 {
            spacing
        } else {
            0
        });
    }
}

/// Stack sum law: when no child's extent along the axis depends on what it
/// is offered, a stack offered all the room is as long as its children's
/// natural extents plus the spacing between them, clamped to the proposal.
/// Across the axis it is as wide as the widest child, clamped likewise.
pub proof fn lemma_stack_sum<VT: ViewTuple>(c: VT, vertical: bool, spacing: u16)
    requires
        c.spec_len() <= usize::MAX,
        forall|i: int| 0 <= i < c.spec_len() ==> #[trigger] is_rigid(c, vertical, DIM_MAX, i),
    ensures
        main_of(vertical, stack_size(c, vertical, Size { width: DIM_MAX, height: DIM_MAX }, spacing as int))
            == min_int(
            natural_sum(c, vertical, DIM_MAX, c.spec_len()) + gaps(c.spec_len(), spacing as int),
            DIM_MAX as int,
        ),
{
    let p = Size { width: DIM_MAX, height: DIM_MAX };
    let fs = flexes(c, vertical, DIM_MAX);
    assert forall|i: int| 0 <= i < fs.len() implies fs[i] == 0 by {
        assert(is_rigid(c, vertical, DIM_MAX, i));
        assert(main_of(vertical, c.spec_child_size(i, along(vertical, 0, DIM_MAX))) == natural_main(
            c,
            vertical,
            DIM_MAX,
            i,
        ));
    }
    lemma_flex_order_identity(fs, c.spec_len());
    assert(stack_order(c, vertical, p) == Seq::new(c.spec_len(), |i: int| i as usize));
    assert(cross_of(vertical, p) as u16 == DIM_MAX);
    assert forall|i: int| 0 <= i < c.spec_len() implies #[trigger] is_rigid(
        c,
        vertical,
        cross_of(vertical, p) as u16,
        i,
    ) by {
        assert(is_rigid(c, vertical, DIM_MAX, i));
    }
    lemma_allocate_rigid(c, vertical, p, spacing as int, c.spec_len());
    lemma_natural_sum_nonneg(c, vertical, DIM_MAX, c.spec_len());
    assert(gaps(c.spec_len(), spacing as int) >= 0) by (nonlinear_arith)
        requires
            spacing >= 0,
    ;
}

proof fn lemma_natural_sum_nonneg<VT: ViewTuple>(c: VT, vertical: bool, cross: u16, k: nat)
    ensures
        natural_sum(c, vertical, cross, k) >= 0,
    decreases k,
{
    if k > 0 {
        lemma_natural_sum_nonneg(c, vertical, cross, (k - 1) as nat);
    }
}

/// Flex ordering: in a stack of one rigid child and two fully flexible ones,
/// wherever the rigid child stands, it gets exactly its natural extent, and
/// the two flexible children split what remains within one unit of each
/// other; when the budget covers the rigid child and the spacing, the three
/// shares and the spacing fill it exactly. This holds for spacings of 0 and
/// 1; with more spacing the gap after the first flexible child comes off the
/// second one's share.
pub proof fn lemma_flex_ordering<VT: ViewTuple>(
    c: VT,
    vertical: bool,
    proposed: Size,
    spacing: u16,
    rigid: int,
    first: int,
    second: int,
)
    requires
        c.spec_len() == 3,
        0 <= rigid < 3,
        0 <= first < second < 3,
        rigid != first && rigid != second,
        spacing <= 1,
        is_rigid(c, vertical, cross_of(vertical, proposed) as u16, rigid),
        is_fully_flexible(c, vertical, cross_of(vertical, proposed) as u16, first),
        is_fully_flexible(c, vertical, cross_of(vertical, proposed) as u16, second),
    ensures
        ({
            let sizes = stack_layout(c, vertical, proposed, spacing as int).3;
            let a = main_of(vertical, sizes[first]);
            let b = main_of(vertical, sizes[second]);
            &&& main_of(vertical, sizes[rigid]) == natural_main(
                c,
                vertical,
                cross_of(vertical, proposed) as u16,
                rigid,
            )
            &&& -1 <= a - b <= 1
            &&& main_of(vertical, proposed) >= natural_main(
                c,
                vertical,
                cross_of(vertical, proposed) as u16,
                rigid,
            ) + 2 * spacing ==> natural_main(c, vertical, cross_of(vertical, proposed) as u16, rigid)
                + a + b + 2 * spacing == main_of(vertical, proposed)
        }),
{
    let cross = cross_of(vertical, proposed) as u16;
    let fs = flexes(c, vertical, cross);
    assert(fs[rigid] == 0) by {
        assert(main_of(vertical, c.spec_child_size(rigid, along(vertical, 0, cross))) == natural_main(
            c,
            vertical,
            cross,
            rigid,
        ));
    }
    assert(fs[first] == DIM_MAX) by {
        assert(main_of(vertical, c.spec_child_size(first, along(vertical, 0, cross))) == 0);
        assert(main_of(vertical, c.spec_child_size(first, along(vertical, DIM_MAX, cross)))
            == DIM_MAX);
    }
    assert(fs[second] == DIM_MAX) by {
        assert(main_of(vertical, c.spec_child_size(second, along(vertical, 0, cross))) == 0);
        assert(main_of(vertical, c.spec_child_size(second, along(vertical, DIM_MAX, cross)))
            == DIM_MAX);
    }
    let order = stack_order(c, vertical, proposed);
    assert(order == seq![rigid as usize, first as usize, second as usize]) by {
        reveal_with_fuel(flex_order, 4);
        reveal_with_fuel(insert_by_flex, 4);
        assert(flex_order(fs, 1) == seq![0usize]);
        if rigid == 0 {
            assert(flex_order(fs, 2) =~= seq![0usize, 1usize]);
            assert(flex_order(fs, 3) =~= seq![0usize, 1usize, 2usize]);
        } else if rigid == 1 {
            assert(flex_order(fs, 2) =~= seq![1usize, 0usize]);
            assert(flex_order(fs, 3) =~= seq![1usize, 0usize, 2usize]);
        } else {
            assert(flex_order(fs, 2) =~= seq![0usize, 1usize]);
            assert(flex_order(fs, 3) =~= seq![2usize, 0usize, 1usize]);
        }
    }
    let sp = spacing as int;
    let a0 = allocate(c, vertical, proposed, sp, order, 0);
    let a1 = allocate(c, vertical, proposed, sp, order, 1);
    let a2 = allocate(c, vertical, proposed, sp, order, 2);
    let a3 = allocate(c, vertical, proposed, sp, order, 3);
    assert(a0.3.len() == 3);
    let o1 = a0.0 / 3;
    assert(0 <= o1 <= DIM_MAX);
    assert(a1.0 == sat_sub(sat_sub(a0.0, natural_main(c, vertical, cross, rigid)), sp)) by {
        assert(is_rigid(c, vertical, cross, rigid));
        assert(main_of(vertical, c.spec_child_size(rigid, along(vertical, o1 as u16, cross)))
            == natural_main(c, vertical, cross, rigid));
    }
    let rem1 = a1.0;
    assert(0 <= rem1 <= DIM_MAX);
    let o2 = rem1 / 2;
    assert(main_of(vertical, c.spec_child_size(first, along(vertical, o2 as u16, cross))) == o2);
    assert(a2.0 == sat_sub(sat_sub(rem1, o2), sp));
    let rem2 = a2.0;
    assert(rem2 / 1 == rem2) by (nonlinear_arith);
    assert(order[2] as int == second);
    assert(main_of(vertical, c.spec_child_size(second, along(vertical, rem2 as u16, cross))) == rem2);
    assert(a3.3[rigid] == a1.3[rigid]);
    assert(main_of(vertical, a1.3[rigid]) == natural_main(c, vertical, cross, rigid)) by {
        assert(is_rigid(c, vertical, cross, rigid));
        assert(main_of(vertical, c.spec_child_size(rigid, along(vertical, o1 as u16, cross)))
            == natural_main(c, vertical, cross, rigid));
    }
    assert(main_of(vertical, a3.3[first]) == o2);
    assert(main_of(vertical, a3.3[second]) == rem2);
}

} // verus!

verus! {

/// The largest width and height among the first `k` children offered
/// `proposed`.
pub open spec fn zstack_extent<VT: ViewTuple>(c: VT, proposed: Size, k: nat) -> (int, int)
    decreases k,
{
    if k == 0 {
        (0, 0)
    } else {
        let prev = zstack_extent(c, proposed, (k - 1) as nat);
        let s = c.spec_child_size(k - 1, proposed);
        (max_int(prev.0, s.width as int), max_int(prev.1, s.height as int))
    }
}

/// Children drawn over one another in order, the last on top.
#[derive(Clone, Debug)]
pub struct ZStack<VT> {
    pub children: VT,
    pub alignment: Alignment,
}

impl<VT> Sealed for ZStack<VT> {
}

impl<VT: ViewTuple> ZStack<VT> {
    pub fn new(children: VT, alignment: Alignment) -> (r: ZStack<VT>)
        ensures
            r.children == children,
            r.alignment == alignment,
    {
        ZStack { children, alignment }
    }

    pub fn alignment(self, alignment: Alignment) -> (r: ZStack<VT>)
        ensures
            r == (ZStack { alignment, ..self }),
    {
        ZStack { alignment, ..self }
    }

    /// Where child `i` is rendered when the stack is given `rect`.
    pub open spec fn spec_placement(&self, rect: Rect, i: int) -> Rect {
        let e = zstack_extent(self.children, rect.size, self.children.spec_len());
        let c = self.children.spec_child_size(i, rect.size);
        Rect {
            point: Point {
                x: sat_add(
                    rect.point.x as int,
                    self.alignment.spec_horizontal().spec_offset(e.0, c.width as int),
                ) as u16,
                y: sat_add(
                    rect.point.y as int,
                    self.alignment.spec_vertical().spec_offset(e.1, c.height as int),
                ) as u16,
            },
            size: c,
        }
    }

    pub open spec fn spec_placements(&self, rect: Rect) -> Seq<Rect> {
        Seq::new(self.children.spec_len(), |i: int| self.spec_placement(rect, i))
    }

    /// The rectangle each child is rendered into, by position: the child's
    /// size for the rectangle, placed within the largest child extents by
    /// the alignment.
    pub fn placements(&self, rect: Rect) -> (r: Vec<Rect>)
        ensures
            r@.len() == self.children.spec_len(),
            forall|i: int|
                0 <= i < r@.len() ==> {
                    let e = zstack_extent(self.children, rect.size, self.children.spec_len());
                    let c = self.children.spec_child_size(i, rect.size);
                    #[trigger] r@[i] == (Rect {
                        point: Point {
                            x: sat_add(
                                rect.point.x as int,
                                self.alignment.spec_horizontal().spec_offset(e.0, c.width as int),
                            ) as u16,
                            y: sat_add(
                                rect.point.y as int,
                                self.alignment.spec_vertical().spec_offset(e.1, c.height as int),
                            ) as u16,
                        },
                        size: c,
                    })
                },
    {
        let (sizes, max_width, max_height) = self.measure(rect.size);
        let horizontal = self.alignment.horizontal();
        let vertical = self.alignment.vertical();
        let n = self.children.length();
        let mut out: Vec<Rect> = Vec::new();
        let mut i: usize = 0;
        while i < n
            invariant
                n == self.children.spec_len(),
                sizes@.len() == n,
                forall|k: int|
                    0 <= k < n ==> #[trigger] sizes@[k] == self.children.spec_child_size(k, rect.size),
                max_width as int == zstack_extent(self.children, rect.size, n as nat).0,
                max_height as int == zstack_extent(self.children, rect.size, n as nat).1,
                horizontal == self.alignment.spec_horizontal(),
                vertical == self.alignment.spec_vertical(),
                i <= n,
                out@.len() == i,
                forall|k: int|
                    0 <= k < i ==> #[trigger] out@[k] == (Rect {
                        point: Point {
                            x: sat_add(
                                rect.point.x as int,
                                horizontal.spec_offset(max_width as int, sizes@[k].width as int),
                            ) as u16,
                            y: sat_add(
                                rect.point.y as int,
                                vertical.spec_offset(max_height as int, sizes@[k].height as int),
                            ) as u16,
                        },
                        size: sizes@[k],
                    }),
            decreases n - i,
        {
            let size = sizes[i];
            let point = Point {
                x: rect.point.x.saturating_add(horizontal.offset(max_width, size.width)),
                y: rect.point.y.saturating_add(vertical.offset(max_height, size.height)),
            };
            out.push(Rect { point, size });
            i += 1;
        }
        out
    }

    /// The size of each child offered `proposed`, and the largest width and
    /// height among them.
    fn measure(&self, proposed: Size) -> (r: (Vec<Size>, u16, u16))
        ensures
            r.0@.len() == self.children.spec_len(),
            forall|i: int|
                0 <= i < r.0@.len() ==> #[trigger] r.0@[i] == self.children.spec_child_size(
                    i,
                    proposed,
                ),
            r.1 as int == zstack_extent(self.children, proposed, self.children.spec_len()).0,
            r.2 as int == zstack_extent(self.children, proposed, self.children.spec_len()).1,
    {
        let n = self.children.length();
        let mut sizes: Vec<Size> = Vec::new();
        let mut max_width: u16 = 0;
        let mut max_height: u16 = 0;
        let mut i: usize = 0;
        while i < n
            invariant
                n == self.children.spec_len(),
                i <= n,
                sizes@.len() == i,
                forall|k: int|
                    0 <= k < i ==> #[trigger] sizes@[k] == self.children.spec_child_size(k, proposed),
                max_width as int == zstack_extent(self.children, proposed, i as nat).0,
                max_height as int == zstack_extent(self.children, proposed, i as nat).1,
            decreases n - i,
        {
            let s = self.children.child_size(i, proposed);
            if s.width > max_width {
                max_width = s.width;
            }
            if s.height > max_height {
                max_height = s.height;
            }
            sizes.push(s);
            i += 1;
        }
        (sizes, max_width, max_height)
    }
}

impl<VT: ViewTuple> View for ZStack<VT> {
    /// The largest child in each dimension, clamped to the proposal.
    open spec fn spec_size(&self, proposed: Size) -> Size {
        let e = zstack_extent(self.children, proposed, self.children.spec_len());
        Size {
            width: min_int(e.0, proposed.width as int) as u16,
            height: min_int(e.1, proposed.height as int) as u16,
        }
    }

    /// Each child is rendered in turn, in order, into its placement, under
    /// the path extended by its segment.
    open spec fn spec_render(
        &self,
        id: Seq<u64>,
        ctx: Context,
        st: Map<Seq<u64>, u64>,
        b: Buffer,
        st2: Map<Seq<u64>, u64>,
        b2: Buffer,
    ) -> bool {
        children_render(self.children, id, ctx, self.spec_placements(ctx.rect), st, b, st2, b2)
    }

    fn size(&self, proposed: Size) -> (r: Size) {
        let (_, width, height) = self.measure(proposed);
        Size {
            width: if width < proposed.width { width } else { proposed.width },
            height: if height < proposed.height { height } else { proposed.height },
        }
    }

    fn render(&self, id: &mut ViewId, context: Context, state: &mut AppState, buffer: &mut Buffer) {
        let places = self.placements(context.rect);
        proof {
            assert(places@ =~= self.spec_placements(context.rect));
        }
        render_children(&self.children, &places, id, context, state, buffer);
    }
}

} // verus!

verus! {

/// Rendering each child in turn, in order, child `i` into `places[i]` under
/// the path `id` extended by its segment, takes the buffer `b` and state
/// `st` to `b2` and `st2`.
pub open spec fn children_render<VT: ViewTuple>(
    c: VT,
    id: Seq<u64>,
    ctx: Context,
    places: Seq<Rect>,
    st: Map<Seq<u64>, u64>,
    b: Buffer,
    st2: Map<Seq<u64>, u64>,
    b2: Buffer,
) -> bool {
    exists|bs: Seq<Buffer>, ss: Seq<Map<Seq<u64>, u64>>|
        #![trigger bs.len(), ss.len()]
        {
            &&& bs.len() == c.spec_len() + 1
            &&& ss.len() == c.spec_len() + 1
            &&& bs[0] == b
            &&& ss[0] == st
            &&& bs.last() == b2
            &&& ss.last() == st2
            &&& forall|i: int|
                0 <= i < c.spec_len() ==> #[trigger] c.spec_child_render(
                    i,
                    id.push(c.spec_child_id(i)),
                    Context { rect: places[i], ..ctx },
                    ss[i],
                    bs[i],
                    ss[i + 1],
                    bs[i + 1],
                )
        }
}

/// Renders each child in turn into its rectangle of `places`, under the
/// path extended by the child's segment.
fn render_children<VT: ViewTuple>(
    c: &VT,
    places: &Vec<Rect>,
    id: &mut ViewId,
    context: Context,
    state: &mut AppState,
    buffer: &mut Buffer,
)
    requires
        places@.len() == c.spec_len(),
        old(buffer).wf(),
        old(state).wf(),
    ensures
        final(buffer).wf(),
        final(buffer).size == old(buffer).size,
        final(state).wf(),
        final(id)@ == old(id)@,
        children_render(
            *c,
            old(id)@,
            context,
            places@,
            old(state).view(),
            *old(buffer),
            final(state).view(),
            *final(buffer),
        ),
{
    let n = c.length();
    let ghost mut bs: Seq<Buffer> = seq![*buffer];
    let ghost mut ss: Seq<Map<Seq<u64>, u64>> = seq![state.view()];
    let mut i: usize = 0;
    while i < n
        invariant
            n == c.spec_len(),
            places@.len() == n,
            i <= n,
            buffer.wf(),
            buffer.size == old(buffer).size,
            state.wf(),
            id@ == old(id)@,
            bs.len() == i + 1,
            ss.len() == i + 1,
            bs[0] == *old(buffer),
            ss[0] == old(state).view(),
            bs[i as int] == *buffer,
            ss[i as int] == state.view(),
            forall|k: int|
                0 <= k < i ==> #[trigger] c.spec_child_render(
                    k,
                    old(id)@.push(c.spec_child_id(k)),
                    Context { rect: places@[k], ..context },
                    ss[k],
                    bs[k],
                    ss[k + 1],
                    bs[k + 1],
                ),
        decreases n - i,
    {
        id.push(c.child_id(i));
        c.render_child(i, id, Context { rect: places[i], ..context }, state, buffer);
        id.pop();
        proof {
            bs = bs.push(*buffer);
            ss = ss.push(state.view());
        }
        i += 1;
    }
    proof {
        assert(bs.last() == *buffer);
    }
}

} // verus!
