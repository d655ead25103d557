//! The random choices the game makes, each drawn from the thread's generator.

use vstd::prelude::*;
use rand::seq::SliceRandom;
use rand::thread_rng;
use rand::Rng;

verus! {

/// `Rng::gen_range(0, high)` on `thread_rng()`: a number from 0 up to, not
/// including, `high`. Which one is not known. The call panics unless
/// `0 < high`.
#[verifier::external_body]
pub(crate) fn pick_below(high: u8) -> (n: u8)
    requires
        0 < high,
    ensures
        n < high,
{
    thread_rng().gen_range(0, high)
}

/// `Rng::gen::<bool>()` on `thread_rng()`: either value.
#[verifier::external_body]
pub(crate) fn flip() -> (b: bool) {
    thread_rng().gen::<bool>()
}

/// `SliceRandom::choose` on `thread_rng()`: one of the words, or nothing
/// where there are none. Which one is not known.
#[verifier::external_body]
pub(crate) fn pick_word(words: &Vec<&'static str>) -> (w: Option<&'static str>)
    ensures
        words@.len() == 0 ==> w is None,
        words@.len() > 0 ==> w is Some && words@.contains(w->0),
{
    words.choose(&mut thread_rng()).copied()
}

} // verus!
