use crate::buffer::Buffer;
use crate::color::{Color, Modifier};
use crate::private::Sealed;
use crate::size::Size;
use crate::view::{AppState, Context, View, ViewId};
use vstd::prelude::*;
use vstd::view::View as _;

verus! {

/// A child rendered with a foreground color and extra attributes for its
/// whole subtree.
#[derive(Clone, Debug, PartialEq, Eq)]
pub struct ContextModifier<V> {
    pub child: V,
    pub fg: Option<Color>,
    pub modifier: Option<Modifier>,
}

impl<V> Sealed for ContextModifier<V> {
}

impl<V: View> ContextModifier<V> {
    pub fn modifier(child: V, modifier: Modifier) -> (r: ContextModifier<V>)
        ensures
            r.child == child,
            r.fg is None,
            r.modifier == Some(modifier),
    {
        ContextModifier { child, fg: None, modifier: Some(modifier) }
    }

    pub fn modifier_when(child: V, condition: bool, modifier: Modifier) -> (r: ContextModifier<V>)
        ensures
            r.child == child,
            r.fg is None,
            r.modifier == if condition {
                Some(modifier)
            } else {
                None
            },
    {
        ContextModifier { child, fg: None, modifier: if condition { Some(modifier) } else { None } }
    }
}

impl<V: View> View for ContextModifier<V> {
    open spec fn spec_size(&self, proposed: Size) -> Size {
        self.child.spec_size(proposed)
    }

    /// The child is rendered with the color, when set, and the attributes
    /// added to those inherited.
    open spec fn spec_render(
        &self,
        id: Seq<u64>,
        ctx: Context,
        st: Map<Seq<u64>, u64>,
        b: Buffer,
        st2: Map<Seq<u64>, u64>,
        b2: Buffer,
    ) -> bool {
        let fg = match self.fg {
            Some(c) => c,
            None => ctx.fg,
        };
        let modifier = match self.modifier {
            Some(m) => Modifier { bits: ctx.modifier.bits | m.bits },
            None => Modifier { bits: ctx.modifier.bits | 0 },
        };
        self.child.spec_render(id, Context { fg, modifier, ..ctx }, st, b, st2, b2)
    }

    fn size(&self, proposed: Size) -> (r: Size) {
        self.child.size(proposed)
    }

    fn render(&self, id: &mut ViewId, context: Context, state: &mut AppState, buffer: &mut Buffer) {
        let context = context.with_fg(self.fg).with_modifier(self.modifier);
        self.child.render(id, context, state, buffer);
    }
}

} // verus!
