use crate::buffer::Buffer;
use crate::private::Sealed;
use crate::size::Size;
use crate::view::{AppState, Context, View, ViewId};
use std::marker::PhantomData;
use vstd::prelude::*;
use vstd::view::View as _;

verus! {

/// A view made at render time from the size it is given.
#[verifier::reject_recursive_types(V)]
pub struct GeometryReader<V: View, F: Fn(Size) -> V> {
    view: F,
    made: PhantomData<V>,
}

/// `f` can be called on every size, and the views it makes for one size all
/// want the same size for it.
pub open spec fn sizes_consistently<V: View, F: Fn(Size) -> V>(f: F) -> bool {
    &&& forall|p: Size| #[trigger] f.requires((p,))
    &&& forall|p: Size, v1: V, v2: V|
        #[trigger] f.ensures((p,), v1) && #[trigger] f.ensures((p,), v2) ==> v1.spec_size(p)
            == v2.spec_size(p)
}

impl<V: View, F: Fn(Size) -> V> GeometryReader<V, F> {
    #[verifier::type_invariant]
    pub closed spec fn inv(self) -> bool {
        sizes_consistently(self.view)
    }

    /// The function that makes the view.
    pub closed spec fn function(&self) -> F {
        self.view
    }

    pub fn new(view: F) -> (r: GeometryReader<V, F>)
        requires
            sizes_consistently(view),
        ensures
            r.function() == view,
    {
        GeometryReader { view, made: PhantomData }
    }
}

impl<V: View, F: Fn(Size) -> V> Sealed for GeometryReader<V, F> {
}

impl<V: View, F: Fn(Size) -> V> View for GeometryReader<V, F> {
    /// The size of the view made for the proposal.
    open spec fn spec_size(&self, proposed: Size) -> Size {
        (choose|v: V| self.function().ensures((proposed,), v)).spec_size(proposed)
    }

    /// The view the function makes for the rectangle's size is rendered.
    open spec fn spec_render(
        &self,
        id: Seq<u64>,
        ctx: Context,
        st: Map<Seq<u64>, u64>,
        b: Buffer,
        st2: Map<Seq<u64>, u64>,
        b2: Buffer,
    ) -> bool {
        exists|v: V|
            #[trigger] self.function().ensures((ctx.rect.size,), v) && v.spec_render(
                id,
                ctx,
                st,
                b,
                st2,
                b2,
            )
    }

    fn size(&self, proposed: Size) -> (r: Size) {
        proof {
            use_type_invariant(self);
        }
        let v = (self.view)(proposed);
        let r = v.size(proposed);
        proof {
            assert(self.function().ensures((proposed,), v));
            let w = choose|w: V| self.function().ensures((proposed,), w);
            assert(self.function().ensures((proposed,), w));
        }
        r
    }

    fn render(&self, id: &mut ViewId, context: Context, state: &mut AppState, buffer: &mut Buffer) {
        proof {
            use_type_invariant(self);
        }
        let v = (self.view)(context.rect.size);
        v.render(id, context, state, buffer);
        proof {
            assert(self.function().ensures((context.rect.size,), v));
        }
    }
}

} // verus!
