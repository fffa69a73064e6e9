//! Photo import planning: where a photo goes, derived from its metadata, and
//! the bookkeeping that keeps repeated imports from copying content twice.

use vstd::prelude::*;

pub mod checksum;
pub mod digits;
pub mod discovery;
pub mod error;
pub mod exif;
pub mod fragment;
pub mod index;
pub mod paths;
pub mod photo;
pub mod pipeline;
pub mod timestamp;

verus! {

/// Pairs every item handed to the returned function with the captured state.
pub fn _lift_state<T, S>(state: S) -> (lift: impl FnOnce(T) -> (T, S))
    ensures
        forall|item: T| lift.requires((item,)),
        forall|item: T, out: (T, S)| lift.ensures((item,), out) ==> out == (item, state),
{
    move |item: T| -> (out: (T, S))
        ensures
            out == (item, state),
        { (item, state) }
}

} // verus!
