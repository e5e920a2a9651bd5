//! The claims of login tokens.
use vstd::prelude::*;
use crate::auth::UserToken;

verus! {

/// When a token issued at `now` expires: `valid_for` seconds later.
pub fn token_expiry(valid_for: u64, now: u64) -> (exp: u64)
    requires
        valid_for + now <= u64::MAX,
    ensures
        exp == valid_for + now,
{
    valid_for + now
}

/// The claims of a token for `user_id` that expires at `exp`.
pub fn token_claims(user_id: String, exp: u64) -> (t: UserToken)
    ensures
        t.id == user_id,
        t.exp == exp,
{
    UserToken { id: user_id, exp }
}

} // verus!
