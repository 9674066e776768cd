//! Opaque credentials: 64-character alphanumeric tokens drawn uniformly at
//! random. Session ids, authorization-code and access-token uids, client
//! secrets and registration tokens all come from here.

use rand::RngExt;
use vstd::prelude::*;

verus! {

/// Produce a fresh 64-character alphanumeric secret.
///
/// Relies on `rand`'s `Alphanumeric` distribution: every sampled byte is one
/// of `0-9`, `A-Z`, `a-z`. Nothing relates one call's result to another's;
/// collisions are treated as impossible by callers, which check for them.
#[verifier::external_body]
pub fn gen_secret() -> (r: String)
    ensures
        r@.len() == 64,
        crate::codec::all_digits(r@),
{
    rand::rng().sample_iter(rand::distr::Alphanumeric).take(64).map(char::from).collect()
}

} // verus!
