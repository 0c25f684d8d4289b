use rand::seq::SliceRandom;
use vstd::prelude::*;

verus! {

/// Calls `SliceRandom::choose` of the `rand` crate with the thread-local
/// generator. Trusted, as its source shows, to return `None` exactly for an
/// empty list and otherwise one of the words; which one is left to chance.
#[verifier::external_body]
pub(crate) fn choose_word(words: &Vec<String>) -> (r: Option<&String>)
    ensures
        r is None <==> words@.len() == 0,
        r matches Some(w) ==> exists|i: int| 0 <= i < words@.len() && words@[i] == *w,
{
    words.choose(&mut rand::thread_rng())
}

} // verus!
