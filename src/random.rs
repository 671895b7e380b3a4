//! Random draws from the thread-local generator.
use vstd::prelude::*;
use rand::seq::SliceRandom;
use rand::Rng;

verus! {

/// Relies on rand's `SliceRandom::choose` with the thread-local generator:
/// `None` exactly when the slice is empty, otherwise one of its elements.
#[verifier::external_body]
pub(crate) fn choose_one<T: Copy>(items: &Vec<T>) -> (r: Option<T>)
    ensures
        r is None <==> items@.len() == 0,
        r matches Some(x) ==> items@.contains(x),
{
    items.choose(&mut rand::thread_rng()).copied()
}

/// Relies on rand's `Rng::gen_ratio` with the thread-local generator: `true`
/// with odds `numerator` in `denominator`, always `true` when the two are
/// equal and always `false` when `numerator` is 0. It panics when
/// `denominator` is 0 or below `numerator`.
#[verifier::external_body]
pub(crate) fn chance(numerator: u32, denominator: u32) -> (r: bool)
    requires
        0 < denominator,
        numerator <= denominator,
    ensures
        numerator == denominator ==> r,
        numerator == 0 ==> !r,
{
    rand::thread_rng().gen_ratio(numerator, denominator)
}

} // verus!
