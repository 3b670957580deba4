use vstd::prelude::*;

verus! {

/// Relies on `rand::random_range` over an inclusive `u32` range: it returns a
/// value drawn uniformly from `lo..=hi`, and panics only when the range is empty.
#[verifier::external_body]
pub(crate) fn draw_between(lo: u32, hi: u32) -> (r: u32)
    requires
        lo <= hi,
    ensures
        lo <= r <= hi,
{
    rand::random_range(lo..=hi)
}

} // verus!
