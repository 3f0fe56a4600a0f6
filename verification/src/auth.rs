//! Request authentication: a caller-supplied credential is valid exactly when
//! it equals the configured secret. The check runs once per request, before
//! any artifact is created.

use vstd::prelude::*;

verus! {

/// Whether a presented credential grants access: exactly when it equals the
/// configured secret.
pub open spec fn spec_authenticate(presented: Seq<char>, secret: Seq<char>) -> bool {
    presented == secret
}

/// Validate a caller-supplied credential against the configured secret.
pub fn authenticate(presented: &str, secret: &str) -> (r: bool)
    ensures
        r == spec_authenticate(presented@, secret@),
{
    let p: String = presented.to_owned();
    let s: String = secret.to_owned();
    p == s
}

} // verus!
