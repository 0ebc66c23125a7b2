use crate::buffer::{wrote_string, Buffer};
use crate::color::{Color, Modifier};
use crate::private::Sealed;
use crate::size::{Rect, Size};
use std::hash::Hash;
use vstd::prelude::*;
use vstd::view::View as _;

verus! {

/// What a view renders with: the rectangle it paints into and the color and
/// attributes it inherits.
#[derive(Clone, Copy, Debug, PartialEq, Eq, Structural)]
pub struct Context {
    pub rect: Rect,
    pub fg: Color,
    pub modifier: Modifier,
}

impl Context {
    pub fn new(rect: Rect) -> (r: Context)
        ensures
            r.rect == rect,
            r.fg == Color::Reset,
            r.modifier.bits == 0,
    {
        Context { rect, fg: Color::Reset, modifier: Modifier::empty() }
    }

    pub fn with_size(self, size: Size) -> (r: Context)
        ensures
            r == (Context { rect: Rect { point: self.rect.point, size }, ..self }),
    {
        let mut c = self;
        c.rect.size = size;
        c
    }

    pub fn inset_by(self, left: u16, right: u16, top: u16, bottom: u16) -> (r: Context)
        ensures
            r == (Context {
                rect: self.rect.spec_inset(left as int, right as int, top as int, bottom as int),
                ..self
            }),
    {
        let mut c = self;
        c.rect = self.rect.inset_by(left, right, top, bottom);
        c
    }

    /// Overrides the inherited foreground color when one is given.
    pub fn with_fg(self, fg: Option<Color>) -> (r: Context)
        ensures
            r == (Context {
                fg: match fg {
                    Some(c) => c,
                    None => self.fg,
                },
                ..self
            }),
    {
        let mut c = self;
        if let Some(color) = fg {
            c.fg = color;
        }
        c
    }

    /// Adds the given attributes to the inherited ones.
    pub fn with_modifier(self, modifier: Option<Modifier>) -> (r: Context)
        ensures
            r == (Context {
                modifier: match modifier {
                    Some(m) => Modifier { bits: self.modifier.bits | m.bits },
                    None => Modifier { bits: self.modifier.bits | 0 },
                },
                ..self
            }),
    {
        let mut c = self;
        let added = match modifier {
            Some(m) => m,
            None => Modifier::empty(),
        };
        c.modifier = self.modifier.union(added);
        c
    }

    /// Moves the rectangle right and down, keeping its size.
    pub fn offset(self, offset_x: u16, offset_y: u16) -> (r: Context)
        ensures
            r == (Context { rect: self.rect.spec_offset(offset_x as int, offset_y as int), ..self }),
    {
        let mut c = self;
        c.rect = self.rect.offset(offset_x, offset_y);
        c
    }
}

impl Default for Context {
    fn default() -> (r: Context)
        ensures
            r.rect == (Rect { point: crate::size::Point { x: 0, y: 0 }, size: Size { width: 0, height: 0 } }),
            r.fg == Color::Reset,
            r.modifier.bits == 0,
    {
        Context::new(Rect::new(0, 0, 0, 0))
    }
}

/// The path from the root of the view tree to a node: one segment per level,
/// a sibling position or a hash of a key.
#[derive(Clone, Debug)]
pub struct ViewId {
    path: Vec<u64>,
}

impl vstd::view::View for ViewId {
    type V = Seq<u64>;

    closed spec fn view(&self) -> Seq<u64> {
        self.path@
    }
}

/// Relies on std's `Hash` with a `DefaultHasher`: a hash of `value`.
#[verifier::external_body]
pub(crate) fn do_hash<H: Hash>(value: &H) -> u64 {
    let mut hasher = std::hash::DefaultHasher::new();
    value.hash(&mut hasher);
    std::hash::Hasher::finish(&hasher)
}

impl ViewId {
    /// The path of the root.
    pub fn empty() -> (r: ViewId)
        ensures
            r@ == Seq::<u64>::empty(),
    {
        ViewId { path: Vec::new() }
    }

    /// Descends one level, to the child with segment `id`.
    pub fn push(&mut self, id: u64)
        ensures
            final(self)@ == old(self)@.push(id),
    {
        self.path.push(id);
    }

    /// Descends one level, to the child keyed by a hash of `id`.
    pub fn push_hashable<H: Hash>(&mut self, id: H)
        ensures
            final(self)@.len() == old(self)@.len() + 1,
            final(self)@.drop_last() == old(self)@,
    {
        let h = do_hash(&id);
        self.path.push(h);
        proof {
            assert(self.path@.drop_last() =~= old(self)@);
        }
    }

    /// Returns to the parent.
    pub fn pop(&mut self)
        requires
            old(self)@.len() > 0,
        ensures
            final(self)@ == old(self)@.drop_last(),
    {
        self.path.pop();
    }

    pub fn len(&self) -> (r: usize)
        ensures
            r == self@.len(),
    {
        self.path.len()
    }

    /// The segment at depth `i`.
    pub fn segment(&self, i: usize) -> (r: u64)
        requires
            i < self@.len(),
        ensures
            r == self@[i as int],
    {
        self.path[i]
    }

    /// A copy of the path.
    pub fn copied(&self) -> (r: ViewId)
        ensures
            r@ == self@,
    {
        let mut path: Vec<u64> = Vec::new();
        let mut i: usize = 0;
        while i < self.path.len()
            invariant
                i <= self.path@.len(),
                path@ == self.path@.take(i as int),
            decreases self.path@.len() - i,
        {
            path.push(self.path[i]);
            i += 1;
            proof {
                assert(path@ =~= self.path@.take(i as int));
            }
        }
        proof {
            assert(path@ =~= self.path@);
        }
        ViewId { path }
    }

    /// Whether two paths are equal.
    pub fn same_as(&self, other: &ViewId) -> (r: bool)
        ensures
            r == (self@ == other@),
    {
        if self.path.len() != other.path.len() {
            return false;
        }
        let mut i: usize = 0;
        while i < self.path.len()
            invariant
                i <= self.path@.len(),
                self.path@.len() == other.path@.len(),
                forall|j: int| 0 <= j < i ==> self.path@[j] == other.path@[j],
            decreases self.path@.len() - i,
        {
            if self.path[i] != other.path[i] {
                return false;
            }
            i += 1;
        }
        proof {
            assert(self.path@ =~= other.path@);
        }
        true
    }
}

/// State that views keep from one frame to the next, keyed by the path of
/// the node that owns it.
pub struct AppState {
    entries: Vec<(ViewId, u64)>,
    map: Ghost<Map<Seq<u64>, u64>>,
}

impl AppState {
    /// What each node path holds.
    pub closed spec fn view(&self) -> Map<Seq<u64>, u64> {
        self.map@
    }

    pub closed spec fn wf(&self) -> bool {
        &&& forall|i: int, j: int|
            #![trigger self.entries@[i], self.entries@[j]]
            0 <= i < self.entries@.len() && 0 <= j < self.entries@.len() && i != j
                ==> self.entries@[i].0@ != self.entries@[j].0@
        &&& forall|i: int|
            #![trigger self.entries@[i]]
            0 <= i < self.entries@.len() ==> self.map@.contains_key(self.entries@[i].0@)
                && self.map@[self.entries@[i].0@] == self.entries@[i].1
        &&& forall|k: Seq<u64>|
            #![trigger self.map@.contains_key(k)]
            self.map@.contains_key(k) ==> exists|i: int|
                0 <= i < self.entries@.len() && self.entries@[i].0@ == k
    }

    pub fn new() -> (r: AppState)
        ensures
            r.wf(),
            r.view() == Map::<Seq<u64>, u64>::empty(),
    {
        AppState { entries: Vec::new(), map: Ghost(Map::empty()) }
    }

    fn find(&self, view_id: &ViewId) -> (r: Option<usize>)
        requires
            self.wf(),
        ensures
            match r {
                Some(i) => i < self.entries@.len() && self.entries@[i as int].0@ == view_id@,
                None => !self.view().contains_key(view_id@),
            },
    {
        let mut i: usize = 0;
        while i < self.entries.len()
            invariant
                i <= self.entries@.len(),
                forall|j: int| 0 <= j < i ==> (#[trigger] self.entries@[j]).0@ != view_id@,
            decreases self.entries@.len() - i,
        {
            if self.entries[i].0.same_as(view_id) {
                return Some(i);
            }
            i += 1;
        }
        None
    }

    /// The value kept for `view_id`; a node seen for the first time starts
    /// with `default`.
    pub fn get_mut(&mut self, view_id: &ViewId, default: u64) -> (r: u64)
        requires
            old(self).wf(),
        ensures
            final(self).wf(),
            r == if old(self).view().contains_key(view_id@) {
                old(self).view()[view_id@]
            } else {
                default
            },
            final(self).view() == old(self).view().insert(view_id@, r),
    {
        match self.find(view_id) {
            Some(i) => {
                let v = self.entries[i].1;
                proof {
                    assert(self.map@.insert(view_id@, v) =~= self.map@);
                }
                v
            },
            None => {
                self.insert_new(view_id, default);
                default
            },
        }
    }

    fn insert_new(&mut self, view_id: &ViewId, value: u64)
        requires
            old(self).wf(),
            !old(self).view().contains_key(view_id@),
        ensures
            final(self).wf(),
            final(self).view() == old(self).view().insert(view_id@, value),
    {
        let ghost old_entries = self.entries@;
        self.entries.push((view_id.copied(), value));
        self.map = Ghost(self.map@.insert(view_id@, value));
        proof {
            assert forall|i: int|
                #![trigger self.entries@[i]]
                0 <= i < old_entries.len() implies self.entries@[i].0@ != view_id@ by {
                assert(old_entries[i] == self.entries@[i]);
                assert(old(self).map@.contains_key(old_entries[i].0@));
            }
            assert forall|k: Seq<u64>|
                #![trigger self.map@.contains_key(k)]
                self.map@.contains_key(k) implies exists|i: int|
                0 <= i < self.entries@.len() && self.entries@[i].0@ == k by {
                if k == view_id@ {
                    assert(self.entries@[old_entries.len() as int].0@ == k);
                } else {
                    assert(old(self).map@.contains_key(k));
                    let i = choose|i: int|
                        0 <= i < old_entries.len() && old_entries[i].0@ == k;
                    assert(self.entries@[i] == old_entries[i]);
                }
            }
        }
    }

    /// Keeps `value` for `view_id`.
    pub fn set(&mut self, view_id: &ViewId, value: u64)
        requires
            old(self).wf(),
        ensures
            final(self).wf(),
            final(self).view() == old(self).view().insert(view_id@, value),
    {
        match self.find(view_id) {
            Some(i) => {
                let ghost old_entries = self.entries@;
                let key = self.entries[i].0.copied();
                self.entries.set(i, (key, value));
                self.map = Ghost(self.map@.insert(view_id@, value));
                proof {
                    assert forall|j: int|
                        #![trigger self.entries@[j]]
                        0 <= j < self.entries@.len() && j != i implies self.entries@[j]
                        == old_entries[j] by {}
                    assert forall|k: Seq<u64>|
                        #![trigger self.map@.contains_key(k)]
                        self.map@.contains_key(k) implies exists|j: int|
                        0 <= j < self.entries@.len() && self.entries@[j].0@ == k by {
                        if k == view_id@ {
                            assert(self.entries@[i as int].0@ == k);
                        } else {
                            assert(old(self).map@.contains_key(k));
                            let j = choose|j: int|
                                0 <= j < old_entries.len() && old_entries[j].0@ == k;
                            assert(self.entries@[j] == old_entries[j]);
                        }
                    }
                }
            },
            None => {
                self.insert_new(view_id, value);
            },
        }
    }
}

/// A node of the view tree: it says how large it wants to be for a proposed
/// size, and paints itself into a buffer.
pub trait View: Sized + Sealed {
    /// The size this view takes when offered `proposed`.
    spec fn spec_size(&self, proposed: Size) -> Size;

    /// The size this view wants to occupy when its parent offers at most
    /// `proposed`. It depends on the proposal alone.
    fn size(&self, proposed: Size) -> (r: Size)
        ensures
            r == self.spec_size(proposed),
    ;

    /// Rendering with path `id` and context `ctx` takes the buffer `b` and
    /// the per-node state `st` to the buffer `b2` and the state `st2`. It is
    /// a relation because a spec cannot build the strings a buffer holds: it
    /// pins every cell down to the text it shows.
    spec fn spec_render(
        &self,
        id: Seq<u64>,
        ctx: Context,
        st: Map<Seq<u64>, u64>,
        b: Buffer,
        st2: Map<Seq<u64>, u64>,
        b2: Buffer,
    ) -> bool;

    /// Paints the view into `buffer` within `context.rect`, keeping its
    /// per-node state in `state` under the path `id`. Positions outside the
    /// buffer are clipped; the path is handed back as it came.
    fn render(&self, id: &mut ViewId, context: Context, state: &mut AppState, buffer: &mut Buffer)
        requires
            old(buffer).wf(),
            old(state).wf(),
        ensures
            final(buffer).wf(),
            final(buffer).size == old(buffer).size,
            final(state).wf(),
            final(id)@ == old(id)@,
            self.spec_render(
                old(id)@,
                context,
                old(state).view(),
                *old(buffer),
                final(state).view(),
                *final(buffer),
            ),
    ;
}

/// Sizing has no hidden state: two calls with one proposal agree.
pub proof fn lemma_size_idempotent<V: View>(v: &V, proposed: Size, first: Size, second: Size)
    requires
        first == v.spec_size(proposed),
        second == v.spec_size(proposed),
    ensures
        first == second,
{
}

/// A view that takes no room and paints nothing.
#[derive(Clone, Copy, Debug, PartialEq, Eq, Structural)]
pub struct EmptyView;

impl Sealed for EmptyView {
}

impl View for EmptyView {
    open spec fn spec_size(&self, proposed: Size) -> Size {
        Size { width: 0, height: 0 }
    }

    /// Nothing changes.
    open spec fn spec_render(
        &self,
        id: Seq<u64>,
        ctx: Context,
        st: Map<Seq<u64>, u64>,
        b: Buffer,
        st2: Map<Seq<u64>, u64>,
        b2: Buffer,
    ) -> bool {
        st2 == st && b2 == b
    }

    fn size(&self, proposed: Size) -> (r: Size) {
        Size::zero()
    }

    fn render(&self, id: &mut ViewId, context: Context, state: &mut AppState, buffer: &mut Buffer) {
    }
}

pub fn empty() -> (r: EmptyView) {
    EmptyView
}

impl<V: View> Sealed for Option<V> {
}

/// An absent view takes no room and paints nothing.
impl<V: View> View for Option<V> {
    open spec fn spec_size(&self, proposed: Size) -> Size {
        match self {
            Some(v) => v.spec_size(proposed),
            None => Size { width: 0, height: 0 },
        }
    }

    open spec fn spec_render(
        &self,
        id: Seq<u64>,
        ctx: Context,
        st: Map<Seq<u64>, u64>,
        b: Buffer,
        st2: Map<Seq<u64>, u64>,
        b2: Buffer,
    ) -> bool {
        match self {
            Some(v) => v.spec_render(id, ctx, st, b, st2, b2),
            None => st2 == st && b2 == b,
        }
    }

    fn size(&self, proposed: Size) -> (r: Size) {
        match self {
            Some(v) => v.size(proposed),
            None => Size::zero(),
        }
    }

    fn render(&self, id: &mut ViewId, context: Context, state: &mut AppState, buffer: &mut Buffer) {
        if let Some(v) = self {
            v.render(id, context, state, buffer);
        }
    }
}

/// One of two views, picked by a condition.
#[derive(Clone, Debug, PartialEq, Eq)]
pub struct IfThenView<T, F> {
    pub condition: bool,
    pub true_view: T,
    pub false_view: F,
}

pub fn if_then_view<T: View, F: View>(condition: bool, true_view: T, false_view: F) -> (r:
    IfThenView<T, F>)
    ensures
        r.condition == condition,
        r.true_view == true_view,
        r.false_view == false_view,
{
    IfThenView { condition, true_view, false_view }
}

impl<T: View, F: View> Sealed for IfThenView<T, F> {
}

/// The branch that is shown is sized and rendered; its state lives under
/// segment 1 for the true branch and 0 for the false one, so the two never
/// share it.
impl<T: View, F: View> View for IfThenView<T, F> {
    open spec fn spec_size(&self, proposed: Size) -> Size {
        if self.condition {
            self.true_view.spec_size(proposed)
        } else {
            self.false_view.spec_size(proposed)
        }
    }

    open spec fn spec_render(
        &self,
        id: Seq<u64>,
        ctx: Context,
        st: Map<Seq<u64>, u64>,
        b: Buffer,
        st2: Map<Seq<u64>, u64>,
        b2: Buffer,
    ) -> bool {
        if self.condition {
            self.true_view.spec_render(id.push(1), ctx, st, b, st2, b2)
        } else {
            self.false_view.spec_render(id.push(0), ctx, st, b, st2, b2)
        }
    }

    fn size(&self, proposed: Size) -> (r: Size) {
        if self.condition {
            self.true_view.size(proposed)
        } else {
            self.false_view.size(proposed)
        }
    }

    fn render(&self, id: &mut ViewId, context: Context, state: &mut AppState, buffer: &mut Buffer) {
        if self.condition {
            id.push(1);
            self.true_view.render(id, context, state, buffer);
        } else {
            id.push(0);
            self.false_view.render(id, context, state, buffer);
        }
        id.pop();
    }
}

} // verus!

verus! {

/// The decimal digit `d`.
pub open spec fn digit_char(d: nat) -> char {
    seq!['0', '1', '2', '3', '4', '5', '6', '7', '8', '9'][d as int]
}

/// `n` written in decimal, without leading zeros.
pub open spec fn decimal(n: nat) -> Seq<char>
    decreases n,
{
    if n < 10 {
        seq![digit_char(n)]
    } else {
        decimal(n / 10).push(digit_char(n % 10))
    }
}

/// The segments of `p` in decimal, separated by a comma and a space.
pub open spec fn joined_segments(p: Seq<u64>) -> Seq<char>
    decreases p.len(),
{
    if p.len() == 0 {
        Seq::empty()
    } else if p.len() == 1 {
        decimal(p[0] as nat)
    } else {
        joined_segments(p.drop_last()) + seq![',', ' '] + decimal(p.last() as nat)
    }
}

/// What a render counter at path `p` shows after its `n`-th render:
/// `Render [a, b, ...]: n`.
pub open spec fn counter_text(p: Seq<u64>, n: nat) -> Seq<char> {
    seq!['R', 'e', 'n', 'd', 'e', 'r', ' ', '['] + joined_segments(p) + seq![']', ':', ' '] + decimal(n)
}

/// The count after one more render: one more than kept, or 1 for a node
/// seen for the first time, stopping at the largest value.
pub open spec fn next_count(st: Map<Seq<u64>, u64>, id: Seq<u64>) -> u64 {
    if st.contains_key(id) {
        if st[id] == u64::MAX {
            u64::MAX
        } else {
            (st[id] + 1) as u64
        }
    } else {
        1
    }
}

/// Relies on `u64::to_string`: an integer's decimal form, no leading zeros.
#[verifier::external_body]
fn decimal_string(n: u64) -> (r: String)
    ensures
        r@ == decimal(n as nat),
{
    n.to_string()
}

/// A string holding `s`.
fn literal(s: &str) -> (r: String)
    ensures
        r@ == s@,
{
    s.to_owned()
}

/// The text a render counter at `id` shows after its render number `count`.
fn counter_label(id: &ViewId, count: u64) -> (r: String)
    ensures
        r@ == counter_text(id@, count as nat),
{
    let mut label = literal("Render [");
    proof {
        reveal_strlit("Render [");
    }
    let ghost head = label@;
    assert(head == seq!['R', 'e', 'n', 'd', 'e', 'r', ' ', '[']);
    let n = id.path.len();
    let mut i: usize = 0;
    while i < n
        invariant
            n == id.path@.len(),
            i <= n,
            label@ == head + joined_segments(id.path@.take(i as int)),
        decreases n - i,
    {
        if i > 0 {
            let sep = ", ";
            proof {
                reveal_strlit(", ");
            }
            label.append(sep);
        }
        let digits = decimal_string(id.path[i]);
        label.append(digits.as_str());
        proof {
            let p = id.path@.take(i as int + 1);
            assert(p.drop_last() =~= id.path@.take(i as int));
            if i == 0 {
                assert(joined_segments(id.path@.take(0)) =~= Seq::<char>::empty());
            }
            assert(label@ =~= head + joined_segments(p));
        }
        i += 1;
    }
    proof {
        assert(id.path@.take(n as int) =~= id.path@);
    }
    let close = "]: ";
    proof {
        reveal_strlit("]: ");
    }
    label.append(close);
    let count_digits = decimal_string(count);
    label.append(count_digits.as_str());
    proof {
        assert(label@ =~= counter_text(id@, count as nat));
    }
    label
}

/// A line that counts how many times the node at its path has been
/// rendered.
#[derive(Clone, Copy, Debug, PartialEq, Eq, Structural)]
pub struct RenderCounter {}

impl Sealed for RenderCounter {
}

impl View for RenderCounter {
    /// Eighty columns by one row, no more than proposed.
    open spec fn spec_size(&self, proposed: Size) -> Size {
        Size { width: 80, height: 1 }.spec_min(proposed)
    }

    /// The count kept under the path goes up by one, and the line shows
    /// `counter_text` from the rectangle's origin, cut at its width.
    open spec fn spec_render(
        &self,
        id: Seq<u64>,
        ctx: Context,
        st: Map<Seq<u64>, u64>,
        b: Buffer,
        st2: Map<Seq<u64>, u64>,
        b2: Buffer,
    ) -> bool {
        let count = next_count(st, id);
        &&& st2 == st.insert(id, count)
        &&& wrote_string(
            b,
            b2,
            ctx.rect.point.x,
            ctx.rect.point.y,
            ctx.rect.size.width,
            counter_text(id, count as nat),
            ctx.fg,
            None,
            ctx.modifier,
        )
    }

    fn size(&self, proposed: Size) -> (r: Size) {
        Size::new(80, 1).min(proposed)
    }

    fn render(&self, id: &mut ViewId, context: Context, state: &mut AppState, buffer: &mut Buffer) {
        let count = state.get_mut(id, 0).saturating_add(1);
        state.set(id, count);
        proof {
            assert(state.view() =~= old(state).view().insert(id@, count));
        }
        let rect = context.rect;
        let label = counter_label(id, count);
        buffer.set_string_at(
            rect.point.x,
            rect.point.y,
            rect.size.width,
            label.as_str(),
            context.fg,
            None,
            context.modifier,
        );
    }
}

} // verus!
