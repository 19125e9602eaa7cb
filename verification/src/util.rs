//! Small shared utilities: the clock, random string generation, and a
//! borrowed-to-owned vector map.

use vstd::prelude::*;

use rand::distr::SampleString;

verus! {

/// Relies on time's `OffsetDateTime::now_utc`: the current moment as a
/// whole-second Unix timestamp.  The result depends on the clock, so
/// nothing is promised of it.
#[verifier::external_body]
pub(crate) fn now_unix() -> (r: i64) {
    time::OffsetDateTime::now_utc().unix_timestamp()
}

/// Relies on rand's `Alphanumeric` distribution sampled from the thread
/// rng: a string of exactly `size` alphanumeric ASCII characters.  The
/// characters depend on the rng, so only the length is promised.
#[verifier::external_body]
fn sample_alphanumeric(size: usize) -> (r: String)
    ensures
        r@.len() == size,
{
    rand::distr::Alphanumeric.sample_string(&mut rand::rng(), size)
}

/// Create a randomly generated alphanumeric string of `size` characters.
pub fn generate_random_string(size: usize) -> (r: String)
    ensures
        r@.len() == size,
{
    sample_alphanumeric(size)
}

/// Map a borrowed vector of type `I` to an owned vector of type `O`,
/// applying `map_fn` to each element in order.
pub fn map_to_owned<I, O, F: Fn(&I) -> O>(vec: &Vec<I>, map_fn: F) -> (r: Vec<O>)
    requires
        forall|i: int| 0 <= i < vec@.len() ==> call_requires(map_fn, (&vec@[i],)),
    ensures
        r@.len() == vec@.len(),
        forall|i: int| 0 <= i < vec@.len() ==> call_ensures(map_fn, (&vec@[i],), #[trigger] r@[i]),
{
    let mut out: Vec<O> = Vec::new();
    let mut i: usize = 0;
    while i < vec.len()
        invariant
            i <= vec@.len(),
            out@.len() == i,
            forall|k: int| 0 <= k < vec@.len() ==> call_requires(map_fn, (&vec@[k],)),
            forall|k: int| 0 <= k < i ==> call_ensures(map_fn, (&vec@[k],), #[trigger] out@[k]),
        decreases vec@.len() - i,
    {
        out.push(map_fn(&vec[i]));
        i = i + 1;
    }
    out
}

} // verus!
