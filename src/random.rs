use rand::Rng;
use vstd::prelude::*;

verus! {

/// Relies on rand's `thread_rng` and `Rng::gen::<bool>`: a coin flip drawn from
/// the thread-local generator. Nothing is promised of its value.
#[verifier::external_body]
pub(crate) fn coin_flip() -> (r: bool) {
    rand::thread_rng().gen::<bool>()
}

/// Relies on rand's `thread_rng` and `Rng::gen_range`: a value drawn from the
/// half-open range `low..high`, which panics only when that range is empty.
#[verifier::external_body]
pub(crate) fn random_in_range(low: usize, high: usize) -> (r: usize)
    requires
        low < high,
    ensures
        low <= r < high,
{
    rand::thread_rng().gen_range(low..high)
}

} // verus!
