//! Trusted boundary to the `rand` crate: the thread-local generator and the
//! three draws the password construction makes. Nothing is promised of a
//! random value beyond what holds of every outcome.

use vstd::prelude::*;
use rand::Rng;
use rand::seq::SliceRandom;

verus! {

#[verifier::external_type_specification]
#[verifier::external_body]
pub struct ExThreadRng(rand::rngs::ThreadRng);

/// Relies on rand's `thread_rng`: a handle to the thread-local generator.
#[verifier::external_body]
pub(crate) fn new_thread_rng() -> rand::rngs::ThreadRng {
    rand::thread_rng()
}

/// Relies on rand's `Rng::gen_range` on `0..n`: a value below `n`; the call
/// panics only on an empty range, which the precondition rules out.
#[verifier::external_body]
pub(crate) fn gen_index(rng: &mut rand::rngs::ThreadRng, n: usize) -> (r: usize)
    requires
        n > 0,
    ensures
        r < n,
{
    rng.gen_range(0..n)
}

/// Relies on rand's `SliceRandom::choose`: `Some` holding an element of the
/// slice when it is non-empty, `None` exactly when it is empty.
#[verifier::external_body]
pub(crate) fn choose_str(rng: &mut rand::rngs::ThreadRng, words: &Vec<&'static str>) -> (r: Option<
    &'static str,
>)
    ensures
        r is Some <==> words@.len() > 0,
        r matches Some(w) ==> exists|k: int| 0 <= k < words@.len() && (#[trigger] words@[k])@
            == w@,
{
    words.as_slice().choose(rng).copied()
}

} // verus!
