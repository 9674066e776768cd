//! The CSRF guard: a per-browser nonce cookie echoed by every state-changing
//! form. A submission passes only if the echoed field equals the cookie.

use crate::errors::ApiError;
use vstd::prelude::*;

verus! {

/// The nonce attached to a browser via the `csrf` cookie.
#[derive(Clone, Debug)]
pub struct CsrfNonce(pub String);

impl CsrfNonce {
    /// Compare the cookie nonce with the form-submitted one: equality passes,
    /// anything else is a `CsrfFailure` (HTTP 400).
    ///
    /// The comparison scans every character so that the time taken does not
    /// reveal the length of the matching prefix beyond the strings' lengths.
    pub fn verify(&self, other: &CsrfNonce) -> (r: Result<(), ApiError>)
        ensures
            self.0@ == other.0@ ==> r is Ok,
            self.0@ != other.0@ ==> r == Err::<(), ApiError>(ApiError::CsrfFailure),
    {
        if constant_time_eq(&self.0, &other.0) {
            Ok(())
        } else {
            Err(ApiError::CsrfFailure)
        }
    }
}

/// Equality of two strings, scanning all characters of equal-length inputs
/// rather than stopping at the first mismatch.
pub fn constant_time_eq(a: &String, b: &String) -> (r: bool)
    ensures
        r == (a@ == b@),
{
    let a_str = a.as_str();
    let b_str = b.as_str();
    let n = a_str.unicode_len();
    let m = b_str.unicode_len();
    if n != m {
        proof {
            assert(a@ != b@);
        }
        return false;
    }
    let mut same = true;
    let mut i: usize = 0;
    proof {
        assert(a@.take(0) =~= b@.take(0));
    }
    while i < n
        invariant
            i <= n,
            n == a@.len(),
            n == b@.len(),
            a_str@ == a@,
            b_str@ == b@,
            same == (a@.take(i as int) == b@.take(i as int)),
        decreases n - i,
    {
        let ca = a_str.get_char(i);
        let cb = b_str.get_char(i);
        let here = ca == cb;
        proof {
            if same && here {
                assert(a@.take(i + 1) =~= a@.take(i as int).push(a@[i as int]));
                assert(b@.take(i + 1) =~= b@.take(i as int).push(b@[i as int]));
            }
            if !here {
                assert(a@.take(i + 1)[i as int] != b@.take(i + 1)[i as int]);
            }
            if !same {
                if forall|j: int| 0 <= j < i ==> a@.take(i as int)[j] == b@.take(i as int)[j] {
                    assert(a@.take(i as int) =~= b@.take(i as int));
                }
                let j = choose|j: int|
                    0 <= j < i && a@.take(i as int)[j] != b@.take(i as int)[j];
                assert(a@.take(i + 1)[j] != b@.take(i + 1)[j]);
            }
        }
        same = same && here;
        i = i + 1;
    }
    proof {
        assert(a@.take(n as int) =~= a@);
        assert(b@.take(n as int) =~= b@);
    }
    same
}

} // verus!
