use vstd::prelude::*;

verus! {

/// Declares rand's thread-local generator so that it can be passed
/// by reference through the simulation. A value of it is opaque: no
/// contract here says anything about which numbers come out.
#[verifier::external_type_specification]
#[verifier::external_body]
pub struct ExThreadRng(rand::rngs::ThreadRng);

/// Relies on rand's `RngExt::random_range` over `lo..=hi`: the result
/// lies in the inclusive range. The call panics only on an empty
/// range, which `lo <= hi` rules out. Nothing more is promised: the
/// draw is random, so two calls on equal arguments may differ.
#[verifier::external_body]
pub(crate) fn random_in(rng: &mut rand::rngs::ThreadRng, lo: usize, hi: usize) -> (r: usize)
    requires
        lo <= hi,
    ensures
        lo <= r <= hi,
{
    rand::RngExt::random_range(rng, lo..=hi)
}

} // verus!
