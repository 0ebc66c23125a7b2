use crate::buffer::Buffer;
use crate::private::Sealed;
use crate::size::Size;
use crate::view::{AppState, Context, View, ViewId};
use vstd::prelude::*;
use vstd::view::View as _;

verus! {

/// Blank space around a child, a fixed amount on each edge.
#[derive(Clone, Debug)]
pub struct Padding<V> {
    pub child: V,
    pub padding_top: u16,
    pub padding_bottom: u16,
    pub padding_left: u16,
    pub padding_right: u16,
}

impl<V: View> Sealed for Padding<V> {
}

impl<V: View> View for Padding<V> {
    /// The child's size for the proposal less the padding, plus the padding.
    open spec fn spec_size(&self, proposed: Size) -> Size {
        let l = self.padding_left as int;
        let r = self.padding_right as int;
        let t = self.padding_top as int;
        let b = self.padding_bottom as int;
        self.child.spec_size(proposed.spec_inset(l, r, t, b)).spec_outset(l, r, t, b)
    }

    /// The child is rendered into the rectangle less the padding.
    open spec fn spec_render(
        &self,
        id: Seq<u64>,
        ctx: Context,
        st: Map<Seq<u64>, u64>,
        b: Buffer,
        st2: Map<Seq<u64>, u64>,
        b2: Buffer,
    ) -> bool {
        let inner = ctx.rect.spec_inset(
            self.padding_left as int,
            self.padding_right as int,
            self.padding_top as int,
            self.padding_bottom as int,
        );
        self.child.spec_render(id, Context { rect: inner, ..ctx }, st, b, st2, b2)
    }

    fn size(&self, proposed: Size) -> (r: Size) {
        let inset = proposed.inset_by(
            self.padding_left,
            self.padding_right,
            self.padding_top,
            self.padding_bottom,
        );
        let child_size = self.child.size(inset);
        child_size.outset_by(
            self.padding_left,
            self.padding_right,
            self.padding_top,
            self.padding_bottom,
        )
    }

    fn render(&self, id: &mut ViewId, context: Context, state: &mut AppState, buffer: &mut Buffer) {
        let inner = context.inset_by(
            self.padding_left,
            self.padding_right,
            self.padding_top,
            self.padding_bottom,
        );
        self.child.render(id, inner, state, buffer);
    }
}

} // verus!
