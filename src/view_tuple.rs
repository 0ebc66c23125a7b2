use crate::buffer::Buffer;
use crate::private::Sealed;
use crate::size::Size;
use crate::view::{do_hash, AppState, Context, View, ViewId};
use std::hash::Hash;
use vstd::prelude::*;
use vstd::view::View as _;

verus! {

/// A view tagged with the identity segment it is rendered under.
#[derive(Clone, Debug)]
pub struct IdentifiedView<V> {
    pub id: u64,
    pub value: V,
}

impl<V> IdentifiedView<V> {
    /// Tags `value` with a hash of `id`.
    pub fn new<ID: Hash>(id: ID, value: V) -> (r: IdentifiedView<V>)
        ensures
            r.value == value,
    {
        IdentifiedView { id: do_hash(&id), value }
    }
}

impl<V: View> Sealed for IdentifiedView<V> {
}

impl<V: View> View for IdentifiedView<V> {
    open spec fn spec_size(&self, proposed: Size) -> Size {
        self.value.spec_size(proposed)
    }

    open spec fn spec_render(
        &self,
        id: Seq<u64>,
        ctx: Context,
        st: Map<Seq<u64>, u64>,
        b: Buffer,
        st2: Map<Seq<u64>, u64>,
        b2: Buffer,
    ) -> bool {
        self.value.spec_render(id, ctx, st, b, st2, b2)
    }

    fn size(&self, proposed: Size) -> (r: Size) {
        self.value.size(proposed)
    }

    fn render(&self, id: &mut ViewId, context: Context, state: &mut AppState, buffer: &mut Buffer) {
        self.value.render(id, context, state, buffer)
    }
}

/// The children of a stack, in order, each with its identity segment.
pub trait ViewTuple: Sized {
    spec fn spec_len(&self) -> nat;

    /// The size child `i` takes when offered `proposed`.
    spec fn spec_child_size(&self, i: int, proposed: Size) -> Size;

    /// The identity segment child `i` is rendered under.
    spec fn spec_child_id(&self, i: int) -> u64;

    /// Child `i`, rendered with path `id` and context `ctx`, takes `b` and
    /// `st` to `b2` and `st2`.
    spec fn spec_child_render(
        &self,
        i: int,
        id: Seq<u64>,
        ctx: Context,
        st: Map<Seq<u64>, u64>,
        b: Buffer,
        st2: Map<Seq<u64>, u64>,
        b2: Buffer,
    ) -> bool;

    fn length(&self) -> (r: usize)
        ensures
            r == self.spec_len(),
    ;

    fn child_size(&self, i: usize, proposed: Size) -> (r: Size)
        requires
            i < self.spec_len(),
        ensures
            r == self.spec_child_size(i as int, proposed),
    ;

    fn child_id(&self, i: usize) -> (r: u64)
        requires
            i < self.spec_len(),
        ensures
            r == self.spec_child_id(i as int),
    ;

    fn render_child(
        &self,
        i: usize,
        id: &mut ViewId,
        context: Context,
        state: &mut AppState,
        buffer: &mut Buffer,
    )
        requires
            i < self.spec_len(),
            old(buffer).wf(),
            old(state).wf(),
        ensures
            final(buffer).wf(),
            final(buffer).size == old(buffer).size,
            final(state).wf(),
            final(id)@ == old(id)@,
            self.spec_child_render(
                i as int,
                old(id)@,
                context,
                old(state).view(),
                *old(buffer),
                final(state).view(),
                *final(buffer),
            ),
    ;
}

/// Children built from a list of keys; each is identified by a hash of its
/// key.
#[derive(Clone, Debug)]
pub struct ForEachView<V> {
    pub values: Vec<IdentifiedView<V>>,
}

/// One child per key, made by `func` and identified by a hash of the key.
pub fn for_each_view<A: Hash, V: View, F: Fn(&A) -> V>(values: Vec<A>, func: F) -> (r: ForEachView<V>)
    requires
        forall|a: &A| func.requires((a,)),
    ensures
        r.values@.len() == values@.len(),
        forall|i: int|
            0 <= i < values@.len() ==> func.ensures((&values@[i],), #[trigger] r.values@[i].value),
{
    let mut out: Vec<IdentifiedView<V>> = Vec::new();
    let mut i: usize = 0;
    while i < values.len()
        invariant
            i <= values@.len(),
            out@.len() == i,
            forall|a: &A| func.requires((a,)),
            forall|k: int| 0 <= k < i ==> func.ensures((&values@[k],), #[trigger] out@[k].value),
        decreases values@.len() - i,
    {
        let key = &values[i];
        let view = func(key);
        out.push(IdentifiedView { id: do_hash(key), value: view });
        i += 1;
    }
    ForEachView { values: out }
}

impl<V: View> ViewTuple for Vec<IdentifiedView<V>> {
    open spec fn spec_len(&self) -> nat {
        self@.len()
    }

    open spec fn spec_child_size(&self, i: int, proposed: Size) -> Size {
        self@[i].value.spec_size(proposed)
    }

    open spec fn spec_child_id(&self, i: int) -> u64 {
        self@[i].id
    }

    open spec fn spec_child_render(
        &self,
        i: int,
        id: Seq<u64>,
        ctx: Context,
        st: Map<Seq<u64>, u64>,
        b: Buffer,
        st2: Map<Seq<u64>, u64>,
        b2: Buffer,
    ) -> bool {
        self@[i].value.spec_render(id, ctx, st, b, st2, b2)
    }

    fn length(&self) -> (r: usize) {
        self.len()
    }

    fn child_size(&self, i: usize, proposed: Size) -> (r: Size) {
        self[i].value.size(proposed)
    }

    fn child_id(&self, i: usize) -> (r: u64) {
        self[i].id
    }

    fn render_child(
        &self,
        i: usize,
        id: &mut ViewId,
        context: Context,
        state: &mut AppState,
        buffer: &mut Buffer,
    ) {
        self[i].value.render(id, context, state, buffer);
    }
}

impl<V: View> ViewTuple for ForEachView<V> {
    open spec fn spec_len(&self) -> nat {
        self.values@.len()
    }

    open spec fn spec_child_size(&self, i: int, proposed: Size) -> Size {
        self.values@[i].value.spec_size(proposed)
    }

    open spec fn spec_child_id(&self, i: int) -> u64 {
        self.values@[i].id
    }

    open spec fn spec_child_render(
        &self,
        i: int,
        id: Seq<u64>,
        ctx: Context,
        st: Map<Seq<u64>, u64>,
        b: Buffer,
        st2: Map<Seq<u64>, u64>,
        b2: Buffer,
    ) -> bool {
        self.values@[i].value.spec_render(id, ctx, st, b, st2, b2)
    }

    fn length(&self) -> (r: usize) {
        self.values.len()
    }

    fn child_size(&self, i: usize, proposed: Size) -> (r: Size) {
        self.values[i].value.size(proposed)
    }

    fn child_id(&self, i: usize) -> (r: u64) {
        self.values[i].id
    }

    fn render_child(
        &self,
        i: usize,
        id: &mut ViewId,
        context: Context,
        state: &mut AppState,
        buffer: &mut Buffer,
    ) {
        self.values[i].value.render(id, context, state, buffer);
    }
}


impl<V1: View> ViewTuple for (V1,) {
    open spec fn spec_len(&self) -> nat {
        1
    }

    open spec fn spec_child_size(&self, i: int, proposed: Size) -> Size {
        self.0.spec_size(proposed)
    }

    open spec fn spec_child_id(&self, i: int) -> u64 {
        (i + 1) as u64
    }

    open spec fn spec_child_render(
        &self,
        i: int,
        id: Seq<u64>,
        ctx: Context,
        st: Map<Seq<u64>, u64>,
        b: Buffer,
        st2: Map<Seq<u64>, u64>,
        b2: Buffer,
    ) -> bool {
        self.0.spec_render(id, ctx, st, b, st2, b2)
    }

    fn length(&self) -> (r: usize) {
        1
    }

    fn child_size(&self, i: usize, proposed: Size) -> (r: Size) {
        self.0.size(proposed)
    }

    fn child_id(&self, i: usize) -> (r: u64) {
        i as u64 + 1
    }

    fn render_child(
        &self,
        i: usize,
        id: &mut ViewId,
        context: Context,
        state: &mut AppState,
        buffer: &mut Buffer,
    ) {
        self.0.render(id, context, state, buffer);
    }
}

impl<V1: View, V2: View> ViewTuple for (V1, V2) {
    open spec fn spec_len(&self) -> nat {
        2
    }

    open spec fn spec_child_size(&self, i: int, proposed: Size) -> Size {
        if i == 0 {
            self.0.spec_size(proposed)
        } else {
            self.1.spec_size(proposed)
        }
    }

    open spec fn spec_child_id(&self, i: int) -> u64 {
        (i + 1) as u64
    }

    open spec fn spec_child_render(
        &self,
        i: int,
        id: Seq<u64>,
        ctx: Context,
        st: Map<Seq<u64>, u64>,
        b: Buffer,
        st2: Map<Seq<u64>, u64>,
        b2: Buffer,
    ) -> bool {
        if i == 0 {
            self.0.spec_render(id, ctx, st, b, st2, b2)
        } else {
            self.1.spec_render(id, ctx, st, b, st2, b2)
        }
    }

    fn length(&self) -> (r: usize) {
        2
    }

    fn child_size(&self, i: usize, proposed: Size) -> (r: Size) {
        if i == 0 {
            self.0.size(proposed)
        } else {
            self.1.size(proposed)
        }
    }

    fn child_id(&self, i: usize) -> (r: u64) {
        i as u64 + 1
    }

    fn render_child(
        &self,
        i: usize,
        id: &mut ViewId,
        context: Context,
        state: &mut AppState,
        buffer: &mut Buffer,
    ) {
        if i == 0 {
            self.0.render(id, context, state, buffer);
        } else {
            self.1.render(id, context, state, buffer);
        }
    }
}

impl<V1: View, V2: View, V3: View> ViewTuple for (V1, V2, V3) {
    open spec fn spec_len(&self) -> nat {
        3
    }

    open spec fn spec_child_size(&self, i: int, proposed: Size) -> Size {
        if i == 0 {
            self.0.spec_size(proposed)
        } else if i == 1 {
            self.1.spec_size(proposed)
        } else {
            self.2.spec_size(proposed)
        }
    }

    open spec fn spec_child_id(&self, i: int) -> u64 {
        (i + 1) as u64
    }

    open spec fn spec_child_render(
        &self,
        i: int,
        id: Seq<u64>,
        ctx: Context,
        st: Map<Seq<u64>, u64>,
        b: Buffer,
        st2: Map<Seq<u64>, u64>,
        b2: Buffer,
    ) -> bool {
        if i == 0 {
            self.0.spec_render(id, ctx, st, b, st2, b2)
        } else if i == 1 {
            self.1.spec_render(id, ctx, st, b, st2, b2)
        } else {
            self.2.spec_render(id, ctx, st, b, st2, b2)
        }
    }

    fn length(&self) -> (r: usize) {
        3
    }

    fn child_size(&self, i: usize, proposed: Size) -> (r: Size) {
        if i == 0 {
            self.0.size(proposed)
        } else if i == 1 {
            self.1.size(proposed)
        } else {
            self.2.size(proposed)
        }
    }

    fn child_id(&self, i: usize) -> (r: u64) {
        i as u64 + 1
    }

    fn render_child(
        &self,
        i: usize,
        id: &mut ViewId,
        context: Context,
        state: &mut AppState,
        buffer: &mut Buffer,
    ) {
        if i == 0 {
            self.0.render(id, context, state, buffer);
        } else if i == 1 {
            self.1.render(id, context, state, buffer);
        } else {
            self.2.render(id, context, state, buffer);
        }
    }
}

impl<V1: View, V2: View, V3: View, V4: View> ViewTuple for (V1, V2, V3, V4) {
    open spec fn spec_len(&self) -> nat {
        4
    }

    open spec fn spec_child_size(&self, i: int, proposed: Size) -> Size {
        if i == 0 {
            self.0.spec_size(proposed)
        } else if i == 1 {
            self.1.spec_size(proposed)
        } else if i == 2 {
            self.2.spec_size(proposed)
        } else {
            self.3.spec_size(proposed)
        }
    }

    open spec fn spec_child_id(&self, i: int) -> u64 {
        (i + 1) as u64
    }

    open spec fn spec_child_render(
        &self,
        i: int,
        id: Seq<u64>,
        ctx: Context,
        st: Map<Seq<u64>, u64>,
        b: Buffer,
        st2: Map<Seq<u64>, u64>,
        b2: Buffer,
    ) -> bool {
        if i == 0 {
            self.0.spec_render(id, ctx, st, b, st2, b2)
        } else if i == 1 {
            self.1.spec_render(id, ctx, st, b, st2, b2)
        } else if i == 2 {
            self.2.spec_render(id, ctx, st, b, st2, b2)
        } else {
            self.3.spec_render(id, ctx, st, b, st2, b2)
        }
    }

    fn length(&self) -> (r: usize) {
        4
    }

    fn child_size(&self, i: usize, proposed: Size) -> (r: Size) {
        if i == 0 {
            self.0.size(proposed)
        } else if i == 1 {
            self.1.size(proposed)
        } else if i == 2 {
            self.2.size(proposed)
        } else {
            self.3.size(proposed)
        }
    }

    fn child_id(&self, i: usize) -> (r: u64) {
        i as u64 + 1
    }

    fn render_child(
        &self,
        i: usize,
        id: &mut ViewId,
        context: Context,
        state: &mut AppState,
        buffer: &mut Buffer,
    ) {
        if i == 0 {
            self.0.render(id, context, state, buffer);
        } else if i == 1 {
            self.1.render(id, context, state, buffer);
        } else if i == 2 {
            self.2.render(id, context, state, buffer);
        } else {
            self.3.render(id, context, state, buffer);
        }
    }
}

impl<V1: View, V2: View, V3: View, V4: View, V5: View> ViewTuple for (V1, V2, V3, V4, V5) {
    open spec fn spec_len(&self) -> nat {
        5
    }

    open spec fn spec_child_size(&self, i: int, proposed: Size) -> Size {
        if i == 0 {
            self.0.spec_size(proposed)
        } else if i == 1 {
            self.1.spec_size(proposed)
        } else if i == 2 {
            self.2.spec_size(proposed)
        } else if i == 3 {
            self.3.spec_size(proposed)
        } else {
            self.4.spec_size(proposed)
        }
    }

    open spec fn spec_child_id(&self, i: int) -> u64 {
        (i + 1) as u64
    }

    open spec fn spec_child_render(
        &self,
        i: int,
        id: Seq<u64>,
        ctx: Context,
        st: Map<Seq<u64>, u64>,
        b: Buffer,
        st2: Map<Seq<u64>, u64>,
        b2: Buffer,
    ) -> bool {
        if i == 0 {
            self.0.spec_render(id, ctx, st, b, st2, b2)
        } else if i == 1 {
            self.1.spec_render(id, ctx, st, b, st2, b2)
        } else if i == 2 {
            self.2.spec_render(id, ctx, st, b, st2, b2)
        } else if i == 3 {
            self.3.spec_render(id, ctx, st, b, st2, b2)
        } else {
            self.4.spec_render(id, ctx, st, b, st2, b2)
        }
    }

    fn length(&self) -> (r: usize) {
        5
    }

    fn child_size(&self, i: usize, proposed: Size) -> (r: Size) {
        if i == 0 {
            self.0.size(proposed)
        } else if i == 1 {
            self.1.size(proposed)
        } else if i == 2 {
            self.2.size(proposed)
        } else if i == 3 {
            self.3.size(proposed)
        } else {
            self.4.size(proposed)
        }
    }

    fn child_id(&self, i: usize) -> (r: u64) {
        i as u64 + 1
    }

    fn render_child(
        &self,
        i: usize,
        id: &mut ViewId,
        context: Context,
        state: &mut AppState,
        buffer: &mut Buffer,
    ) {
        if i == 0 {
            self.0.render(id, context, state, buffer);
        } else if i == 1 {
            self.1.render(id, context, state, buffer);
        } else if i == 2 {
            self.2.render(id, context, state, buffer);
        } else if i == 3 {
            self.3.render(id, context, state, buffer);
        } else {
            self.4.render(id, context, state, buffer);
        }
    }
}

impl<V1: View, V2: View, V3: View, V4: View, V5: View, V6: View> ViewTuple for (V1, V2, V3, V4, V5, V6) {
    open spec fn spec_len(&self) -> nat {
        6
    }

    open spec fn spec_child_size(&self, i: int, proposed: Size) -> Size {
        if i == 0 {
            self.0.spec_size(proposed)
        } else if i == 1 {
            self.1.spec_size(proposed)
        } else if i == 2 {
            self.2.spec_size(proposed)
        } else if i == 3 {
            self.3.spec_size(proposed)
        } else if i == 4 {
            self.4.spec_size(proposed)
        } else {
            self.5.spec_size(proposed)
        }
    }

    open spec fn spec_child_id(&self, i: int) -> u64 {
        (i + 1) as u64
    }

    open spec fn spec_child_render(
        &self,
        i: int,
        id: Seq<u64>,
        ctx: Context,
        st: Map<Seq<u64>, u64>,
        b: Buffer,
        st2: Map<Seq<u64>, u64>,
        b2: Buffer,
    ) -> bool {
        if i == 0 {
            self.0.spec_render(id, ctx, st, b, st2, b2)
        } else if i == 1 {
            self.1.spec_render(id, ctx, st, b, st2, b2)
        } else if i == 2 {
            self.2.spec_render(id, ctx, st, b, st2, b2)
        } else if i == 3 {
            self.3.spec_render(id, ctx, st, b, st2, b2)
        } else if i == 4 {
            self.4.spec_render(id, ctx, st, b, st2, b2)
        } else {
            self.5.spec_render(id, ctx, st, b, st2, b2)
        }
    }

    fn length(&self) -> (r: usize) {
        6
    }

    fn child_size(&self, i: usize, proposed: Size) -> (r: Size) {
        if i == 0 {
            self.0.size(proposed)
        } else if i == 1 {
            self.1.size(proposed)
        } else if i == 2 {
            self.2.size(proposed)
        } else if i == 3 {
            self.3.size(proposed)
        } else if i == 4 {
            self.4.size(proposed)
        } else {
            self.5.size(proposed)
        }
    }

    fn child_id(&self, i: usize) -> (r: u64) {
        i as u64 + 1
    }

    fn render_child(
        &self,
        i: usize,
        id: &mut ViewId,
        context: Context,
        state: &mut AppState,
        buffer: &mut Buffer,
    ) {
        if i == 0 {
            self.0.render(id, context, state, buffer);
        } else if i == 1 {
            self.1.render(id, context, state, buffer);
        } else if i == 2 {
            self.2.render(id, context, state, buffer);
        } else if i == 3 {
            self.3.render(id, context, state, buffer);
        } else if i == 4 {
            self.4.render(id, context, state, buffer);
        } else {
            self.5.render(id, context, state, buffer);
        }
    }
}

impl<V1: View, V2: View, V3: View, V4: View, V5: View, V6: View, V7: View> ViewTuple for (V1, V2, V3, V4, V5, V6, V7) {
    open spec fn spec_len(&self) -> nat {
        7
    }

    open spec fn spec_child_size(&self, i: int, proposed: Size) -> Size {
        if i == 0 {
            self.0.spec_size(proposed)
        } else if i == 1 {
            self.1.spec_size(proposed)
        } else if i == 2 {
            self.2.spec_size(proposed)
        } else if i == 3 {
            self.3.spec_size(proposed)
        } else if i == 4 {
            self.4.spec_size(proposed)
        } else if i == 5 {
            self.5.spec_size(proposed)
        } else {
            self.6.spec_size(proposed)
        }
    }

    open spec fn spec_child_id(&self, i: int) -> u64 {
        (i + 1) as u64
    }

    open spec fn spec_child_render(
        &self,
        i: int,
        id: Seq<u64>,
        ctx: Context,
        st: Map<Seq<u64>, u64>,
        b: Buffer,
        st2: Map<Seq<u64>, u64>,
        b2: Buffer,
    ) -> bool {
        if i == 0 {
            self.0.spec_render(id, ctx, st, b, st2, b2)
        } else if i == 1 {
            self.1.spec_render(id, ctx, st, b, st2, b2)
        } else if i == 2 {
            self.2.spec_render(id, ctx, st, b, st2, b2)
        } else if i == 3 {
            self.3.spec_render(id, ctx, st, b, st2, b2)
        } else if i == 4 {
            self.4.spec_render(id, ctx, st, b, st2, b2)
        } else if i == 5 {
            self.5.spec_render(id, ctx, st, b, st2, b2)
        } else {
            self.6.spec_render(id, ctx, st, b, st2, b2)
        }
    }

    fn length(&self) -> (r: usize) {
        7
    }

    fn child_size(&self, i: usize, proposed: Size) -> (r: Size) {
        if i == 0 {
            self.0.size(proposed)
        } else if i == 1 {
            self.1.size(proposed)
        } else if i == 2 {
            self.2.size(proposed)
        } else if i == 3 {
            self.3.size(proposed)
        } else if i == 4 {
            self.4.size(proposed)
        } else if i == 5 {
            self.5.size(proposed)
        } else {
            self.6.size(proposed)
        }
    }

    fn child_id(&self, i: usize) -> (r: u64) {
        i as u64 + 1
    }

    fn render_child(
        &self,
        i: usize,
        id: &mut ViewId,
        context: Context,
        state: &mut AppState,
        buffer: &mut Buffer,
    ) {
        if i == 0 {
            self.0.render(id, context, state, buffer);
        } else if i == 1 {
            self.1.render(id, context, state, buffer);
        } else if i == 2 {
            self.2.render(id, context, state, buffer);
        } else if i == 3 {
            self.3.render(id, context, state, buffer);
        } else if i == 4 {
            self.4.render(id, context, state, buffer);
        } else if i == 5 {
            self.5.render(id, context, state, buffer);
        } else {
            self.6.render(id, context, state, buffer);
        }
    }
}

impl<V1: View, V2: View, V3: View, V4: View, V5: View, V6: View, V7: View, V8: View> ViewTuple for (V1, V2, V3, V4, V5, V6, V7, V8) {
    open spec fn spec_len(&self) -> nat {
        8
    }

    open spec fn spec_child_size(&self, i: int, proposed: Size) -> Size {
        if i == 0 {
            self.0.spec_size(proposed)
        } else if i == 1 {
            self.1.spec_size(proposed)
        } else if i == 2 {
            self.2.spec_size(proposed)
        } else if i == 3 {
            self.3.spec_size(proposed)
        } else if i == 4 {
            self.4.spec_size(proposed)
        } else if i == 5 {
            self.5.spec_size(proposed)
        } else if i == 6 {
            self.6.spec_size(proposed)
        } else {
            self.7.spec_size(proposed)
        }
    }

    open spec fn spec_child_id(&self, i: int) -> u64 {
        (i + 1) as u64
    }

    open spec fn spec_child_render(
        &self,
        i: int,
        id: Seq<u64>,
        ctx: Context,
        st: Map<Seq<u64>, u64>,
        b: Buffer,
        st2: Map<Seq<u64>, u64>,
        b2: Buffer,
    ) -> bool {
        if i == 0 {
            self.0.spec_render(id, ctx, st, b, st2, b2)
        } else if i == 1 {
            self.1.spec_render(id, ctx, st, b, st2, b2)
        } else if i == 2 {
            self.2.spec_render(id, ctx, st, b, st2, b2)
        } else if i == 3 {
            self.3.spec_render(id, ctx, st, b, st2, b2)
        } else if i == 4 {
            self.4.spec_render(id, ctx, st, b, st2, b2)
        } else if i == 5 {
            self.5.spec_render(id, ctx, st, b, st2, b2)
        } else if i == 6 {
            self.6.spec_render(id, ctx, st, b, st2, b2)
        } else {
            self.7.spec_render(id, ctx, st, b, st2, b2)
        }
    }

    fn length(&self) -> (r: usize) {
        8
    }

    fn child_size(&self, i: usize, proposed: Size) -> (r: Size) {
        if i == 0 {
            self.0.size(proposed)
        } else if i == 1 {
            self.1.size(proposed)
        } else if i == 2 {
            self.2.size(proposed)
        } else if i == 3 {
            self.3.size(proposed)
        } else if i == 4 {
            self.4.size(proposed)
        } else if i == 5 {
            self.5.size(proposed)
        } else if i == 6 {
            self.6.size(proposed)
        } else {
            self.7.size(proposed)
        }
    }

    fn child_id(&self, i: usize) -> (r: u64) {
        i as u64 + 1
    }

    fn render_child(
        &self,
        i: usize,
        id: &mut ViewId,
        context: Context,
        state: &mut AppState,
        buffer: &mut Buffer,
    ) {
        if i == 0 {
            self.0.render(id, context, state, buffer);
        } else if i == 1 {
            self.1.render(id, context, state, buffer);
        } else if i == 2 {
            self.2.render(id, context, state, buffer);
        } else if i == 3 {
            self.3.render(id, context, state, buffer);
        } else if i == 4 {
            self.4.render(id, context, state, buffer);
        } else if i == 5 {
            self.5.render(id, context, state, buffer);
        } else if i == 6 {
            self.6.render(id, context, state, buffer);
        } else {
            self.7.render(id, context, state, buffer);
        }
    }
}

impl<V1: View, V2: View, V3: View, V4: View, V5: View, V6: View, V7: View, V8: View, V9: View> ViewTuple for (V1, V2, V3, V4, V5, V6, V7, V8, V9) {
    open spec fn spec_len(&self) -> nat {
        9
    }

    open spec fn spec_child_size(&self, i: int, proposed: Size) -> Size {
        if i == 0 {
            self.0.spec_size(proposed)
        } else if i == 1 {
            self.1.spec_size(proposed)
        } else if i == 2 {
            self.2.spec_size(proposed)
        } else if i == 3 {
            self.3.spec_size(proposed)
        } else if i == 4 {
            self.4.spec_size(proposed)
        } else if i == 5 {
            self.5.spec_size(proposed)
        } else if i == 6 {
            self.6.spec_size(proposed)
        } else if i == 7 {
            self.7.spec_size(proposed)
        } else {
            self.8.spec_size(proposed)
        }
    }

    open spec fn spec_child_id(&self, i: int) -> u64 {
        (i + 1) as u64
    }

    open spec fn spec_child_render(
        &self,
        i: int,
        id: Seq<u64>,
        ctx: Context,
        st: Map<Seq<u64>, u64>,
        b: Buffer,
        st2: Map<Seq<u64>, u64>,
        b2: Buffer,
    ) -> bool {
        if i == 0 {
            self.0.spec_render(id, ctx, st, b, st2, b2)
        } else if i == 1 {
            self.1.spec_render(id, ctx, st, b, st2, b2)
        } else if i == 2 {
            self.2.spec_render(id, ctx, st, b, st2, b2)
        } else if i == 3 {
            self.3.spec_render(id, ctx, st, b, st2, b2)
        } else if i == 4 {
            self.4.spec_render(id, ctx, st, b, st2, b2)
        } else if i == 5 {
            self.5.spec_render(id, ctx, st, b, st2, b2)
        } else if i == 6 {
            self.6.spec_render(id, ctx, st, b, st2, b2)
        } else if i == 7 {
            self.7.spec_render(id, ctx, st, b, st2, b2)
        } else {
            self.8.spec_render(id, ctx, st, b, st2, b2)
        }
    }

    fn length(&self) -> (r: usize) {
        9
    }

    fn child_size(&self, i: usize, proposed: Size) -> (r: Size) {
        if i == 0 {
            self.0.size(proposed)
        } else if i == 1 {
            self.1.size(proposed)
        } else if i == 2 {
            self.2.size(proposed)
        } else if i == 3 {
            self.3.size(proposed)
        } else if i == 4 {
            self.4.size(proposed)
        } else if i == 5 {
            self.5.size(proposed)
        } else if i == 6 {
            self.6.size(proposed)
        } else if i == 7 {
            self.7.size(proposed)
        } else {
            self.8.size(proposed)
        }
    }

    fn child_id(&self, i: usize) -> (r: u64) {
        i as u64 + 1
    }

    fn render_child(
        &self,
        i: usize,
        id: &mut ViewId,
        context: Context,
        state: &mut AppState,
        buffer: &mut Buffer,
    ) {
        if i == 0 {
            self.0.render(id, context, state, buffer);
        } else if i == 1 {
            self.1.render(id, context, state, buffer);
        } else if i == 2 {
            self.2.render(id, context, state, buffer);
        } else if i == 3 {
            self.3.render(id, context, state, buffer);
        } else if i == 4 {
            self.4.render(id, context, state, buffer);
        } else if i == 5 {
            self.5.render(id, context, state, buffer);
        } else if i == 6 {
            self.6.render(id, context, state, buffer);
        } else if i == 7 {
            self.7.render(id, context, state, buffer);
        } else {
            self.8.render(id, context, state, buffer);
        }
    }
}

impl<V1: View, V2: View, V3: View, V4: View, V5: View, V6: View, V7: View, V8: View, V9: View, V10: View> ViewTuple for (V1, V2, V3, V4, V5, V6, V7, V8, V9, V10) {
    open spec fn spec_len(&self) -> nat {
        10
    }

    open spec fn spec_child_size(&self, i: int, proposed: Size) -> Size {
        if i == 0 {
            self.0.spec_size(proposed)
        } else if i == 1 {
            self.1.spec_size(proposed)
        } else if i == 2 {
            self.2.spec_size(proposed)
        } else if i == 3 {
            self.3.spec_size(proposed)
        } else if i == 4 {
            self.4.spec_size(proposed)
        } else if i == 5 {
            self.5.spec_size(proposed)
        } else if i == 6 {
            self.6.spec_size(proposed)
        } else if i == 7 {
            self.7.spec_size(proposed)
        } else if i == 8 {
            self.8.spec_size(proposed)
        } else {
            self.9.spec_size(proposed)
        }
    }

    open spec fn spec_child_id(&self, i: int) -> u64 {
        (i + 1) as u64
    }

    open spec fn spec_child_render(
        &self,
        i: int,
        id: Seq<u64>,
        ctx: Context,
        st: Map<Seq<u64>, u64>,
        b: Buffer,
        st2: Map<Seq<u64>, u64>,
        b2: Buffer,
    ) -> bool {
        if i == 0 {
            self.0.spec_render(id, ctx, st, b, st2, b2)
        } else if i == 1 {
            self.1.spec_render(id, ctx, st, b, st2, b2)
        } else if i == 2 {
            self.2.spec_render(id, ctx, st, b, st2, b2)
        } else if i == 3 {
            self.3.spec_render(id, ctx, st, b, st2, b2)
        } else if i == 4 {
            self.4.spec_render(id, ctx, st, b, st2, b2)
        } else if i == 5 {
            self.5.spec_render(id, ctx, st, b, st2, b2)
        } else if i == 6 {
            self.6.spec_render(id, ctx, st, b, st2, b2)
        } else if i == 7 {
            self.7.spec_render(id, ctx, st, b, st2, b2)
        } else if i == 8 {
            self.8.spec_render(id, ctx, st, b, st2, b2)
        } else {
            self.9.spec_render(id, ctx, st, b, st2, b2)
        }
    }

    fn length(&self) -> (r: usize) {
        10
    }

    fn child_size(&self, i: usize, proposed: Size) -> (r: Size) {
        if i == 0 {
            self.0.size(proposed)
        } else if i == 1 {
            self.1.size(proposed)
        } else if i == 2 {
            self.2.size(proposed)
        } else if i == 3 {
            self.3.size(proposed)
        } else if i == 4 {
            self.4.size(proposed)
        } else if i == 5 {
            self.5.size(proposed)
        } else if i == 6 {
            self.6.size(proposed)
        } else if i == 7 {
            self.7.size(proposed)
        } else if i == 8 {
            self.8.size(proposed)
        } else {
            self.9.size(proposed)
        }
    }

    fn child_id(&self, i: usize) -> (r: u64) {
        i as u64 + 1
    }

    fn render_child(
        &self,
        i: usize,
        id: &mut ViewId,
        context: Context,
        state: &mut AppState,
        buffer: &mut Buffer,
    ) {
        if i == 0 {
            self.0.render(id, context, state, buffer);
        } else if i == 1 {
            self.1.render(id, context, state, buffer);
        } else if i == 2 {
            self.2.render(id, context, state, buffer);
        } else if i == 3 {
            self.3.render(id, context, state, buffer);
        } else if i == 4 {
            self.4.render(id, context, state, buffer);
        } else if i == 5 {
            self.5.render(id, context, state, buffer);
        } else if i == 6 {
            self.6.render(id, context, state, buffer);
        } else if i == 7 {
            self.7.render(id, context, state, buffer);
        } else if i == 8 {
            self.8.render(id, context, state, buffer);
        } else {
            self.9.render(id, context, state, buffer);
        }
    }
}

impl<V1: View, V2: View, V3: View, V4: View, V5: View, V6: View, V7: View, V8: View, V9: View, V10: View, V11: View> ViewTuple for (V1, V2, V3, V4, V5, V6, V7, V8, V9, V10, V11) {
    open spec fn spec_len(&self) -> nat {
        11
    }

    open spec fn spec_child_size(&self, i: int, proposed: Size) -> Size {
        if i == 0 {
            self.0.spec_size(proposed)
        } else if i == 1 {
            self.1.spec_size(proposed)
        } else if i == 2 {
            self.2.spec_size(proposed)
        } else if i == 3 {
            self.3.spec_size(proposed)
        } else if i == 4 {
            self.4.spec_size(proposed)
        } else if i == 5 {
            self.5.spec_size(proposed)
        } else if i == 6 {
            self.6.spec_size(proposed)
        } else if i == 7 {
            self.7.spec_size(proposed)
        } else if i == 8 {
            self.8.spec_size(proposed)
        } else if i == 9 {
            self.9.spec_size(proposed)
        } else {
            self.10.spec_size(proposed)
        }
    }

    open spec fn spec_child_id(&self, i: int) -> u64 {
        (i + 1) as u64
    }

    open spec fn spec_child_render(
        &self,
        i: int,
        id: Seq<u64>,
        ctx: Context,
        st: Map<Seq<u64>, u64>,
        b: Buffer,
        st2: Map<Seq<u64>, u64>,
        b2: Buffer,
    ) -> bool {
        if i == 0 {
            self.0.spec_render(id, ctx, st, b, st2, b2)
        } else if i == 1 {
            self.1.spec_render(id, ctx, st, b, st2, b2)
        } else if i == 2 {
            self.2.spec_render(id, ctx, st, b, st2, b2)
        } else if i == 3 {
            self.3.spec_render(id, ctx, st, b, st2, b2)
        } else if i == 4 {
            self.4.spec_render(id, ctx, st, b, st2, b2)
        } else if i == 5 {
            self.5.spec_render(id, ctx, st, b, st2, b2)
        } else if i == 6 {
            self.6.spec_render(id, ctx, st, b, st2, b2)
        } else if i == 7 {
            self.7.spec_render(id, ctx, st, b, st2, b2)
        } else if i == 8 {
            self.8.spec_render(id, ctx, st, b, st2, b2)
        } else if i == 9 {
            self.9.spec_render(id, ctx, st, b, st2, b2)
        } else {
            self.10.spec_render(id, ctx, st, b, st2, b2)
        }
    }

    fn length(&self) -> (r: usize) {
        11
    }

    fn child_size(&self, i: usize, proposed: Size) -> (r: Size) {
        if i == 0 {
            self.0.size(proposed)
        } else if i == 1 {
            self.1.size(proposed)
        } else if i == 2 {
            self.2.size(proposed)
        } else if i == 3 {
            self.3.size(proposed)
        } else if i == 4 {
            self.4.size(proposed)
        } else if i == 5 {
            self.5.size(proposed)
        } else if i == 6 {
            self.6.size(proposed)
        } else if i == 7 {
            self.7.size(proposed)
        } else if i == 8 {
            self.8.size(proposed)
        } else if i == 9 {
            self.9.size(proposed)
        } else {
            self.10.size(proposed)
        }
    }

    fn child_id(&self, i: usize) -> (r: u64) {
        i as u64 + 1
    }

    fn render_child(
        &self,
        i: usize,
        id: &mut ViewId,
        context: Context,
        state: &mut AppState,
        buffer: &mut Buffer,
    ) {
        if i == 0 {
            self.0.render(id, context, state, buffer);
        } else if i == 1 {
            self.1.render(id, context, state, buffer);
        } else if i == 2 {
            self.2.render(id, context, state, buffer);
        } else if i == 3 {
            self.3.render(id, context, state, buffer);
        } else if i == 4 {
            self.4.render(id, context, state, buffer);
        } else if i == 5 {
            self.5.render(id, context, state, buffer);
        } else if i == 6 {
            self.6.render(id, context, state, buffer);
        } else if i == 7 {
            self.7.render(id, context, state, buffer);
        } else if i == 8 {
            self.8.render(id, context, state, buffer);
        } else if i == 9 {
            self.9.render(id, context, state, buffer);
        } else {
            self.10.render(id, context, state, buffer);
        }
    }
}

impl<V1: View, V2: View, V3: View, V4: View, V5: View, V6: View, V7: View, V8: View, V9: View, V10: View, V11: View, V12: View> ViewTuple for (V1, V2, V3, V4, V5, V6, V7, V8, V9, V10, V11, V12) {
    open spec fn spec_len(&self) -> nat {
        12
    }

    open spec fn spec_child_size(&self, i: int, proposed: Size) -> Size {
        if i == 0 {
            self.0.spec_size(proposed)
        } else if i == 1 {
            self.1.spec_size(proposed)
        } else if i == 2 {
            self.2.spec_size(proposed)
        } else if i == 3 {
            self.3.spec_size(proposed)
        } else if i == 4 {
            self.4.spec_size(proposed)
        } else if i == 5 {
            self.5.spec_size(proposed)
        } else if i == 6 {
            self.6.spec_size(proposed)
        } else if i == 7 {
            self.7.spec_size(proposed)
        } else if i == 8 {
            self.8.spec_size(proposed)
        } else if i == 9 {
            self.9.spec_size(proposed)
        } else if i == 10 {
            self.10.spec_size(proposed)
        } else {
            self.11.spec_size(proposed)
        }
    }

    open spec fn spec_child_id(&self, i: int) -> u64 {
        (i + 1) as u64
    }

    open spec fn spec_child_render(
        &self,
        i: int,
        id: Seq<u64>,
        ctx: Context,
        st: Map<Seq<u64>, u64>,
        b: Buffer,
        st2: Map<Seq<u64>, u64>,
        b2: Buffer,
    ) -> bool {
        if i == 0 {
            self.0.spec_render(id, ctx, st, b, st2, b2)
        } else if i == 1 {
            self.1.spec_render(id, ctx, st, b, st2, b2)
        } else if i == 2 {
            self.2.spec_render(id, ctx, st, b, st2, b2)
        } else if i == 3 {
            self.3.spec_render(id, ctx, st, b, st2, b2)
        } else if i == 4 {
            self.4.spec_render(id, ctx, st, b, st2, b2)
        } else if i == 5 {
            self.5.spec_render(id, ctx, st, b, st2, b2)
        } else if i == 6 {
            self.6.spec_render(id, ctx, st, b, st2, b2)
        } else if i == 7 {
            self.7.spec_render(id, ctx, st, b, st2, b2)
        } else if i == 8 {
            self.8.spec_render(id, ctx, st, b, st2, b2)
        } else if i == 9 {
            self.9.spec_render(id, ctx, st, b, st2, b2)
        } else if i == 10 {
            self.10.spec_render(id, ctx, st, b, st2, b2)
        } else {
            self.11.spec_render(id, ctx, st, b, st2, b2)
        }
    }

    fn length(&self) -> (r: usize) {
        12
    }

    fn child_size(&self, i: usize, proposed: Size) -> (r: Size) {
        if i == 0 {
            self.0.size(proposed)
        } else if i == 1 {
            self.1.size(proposed)
        } else if i == 2 {
            self.2.size(proposed)
        } else if i == 3 {
            self.3.size(proposed)
        } else if i == 4 {
            self.4.size(proposed)
        } else if i == 5 {
            self.5.size(proposed)
        } else if i == 6 {
            self.6.size(proposed)
        } else if i == 7 {
            self.7.size(proposed)
        } else if i == 8 {
            self.8.size(proposed)
        } else if i == 9 {
            self.9.size(proposed)
        } else if i == 10 {
            self.10.size(proposed)
        } else {
            self.11.size(proposed)
        }
    }

    fn child_id(&self, i: usize) -> (r: u64) {
        i as u64 + 1
    }

    fn render_child(
        &self,
        i: usize,
        id: &mut ViewId,
        context: Context,
        state: &mut AppState,
        buffer: &mut Buffer,
    ) {
        if i == 0 {
            self.0.render(id, context, state, buffer);
        } else if i == 1 {
            self.1.render(id, context, state, buffer);
        } else if i == 2 {
            self.2.render(id, context, state, buffer);
        } else if i == 3 {
            self.3.render(id, context, state, buffer);
        } else if i == 4 {
            self.4.render(id, context, state, buffer);
        } else if i == 5 {
            self.5.render(id, context, state, buffer);
        } else if i == 6 {
            self.6.render(id, context, state, buffer);
        } else if i == 7 {
            self.7.render(id, context, state, buffer);
        } else if i == 8 {
            self.8.render(id, context, state, buffer);
        } else if i == 9 {
            self.9.render(id, context, state, buffer);
        } else if i == 10 {
            self.10.render(id, context, state, buffer);
        } else {
            self.11.render(id, context, state, buffer);
        }
    }
}

} // verus!
