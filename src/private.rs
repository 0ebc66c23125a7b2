use vstd::prelude::*;

verus! {

/// Only the view kinds of this crate implement it, so only they can be
/// views.
pub trait Sealed {
}

} // verus!
