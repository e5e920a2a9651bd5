//! The server's start-up state.
use vstd::prelude::*;
use crate::auth::UserToken;
use crate::uuid_text::{is_canonical_uuid_text, lemma_uuid_text_canonical, new_random_uuid, parse_uuid_text, uuid_to_string, lemma_uuid_text_parses_back};

verus! {

/// Calls `jsonwebtoken::get_current_timestamp`: the seconds since the Unix
/// epoch by the system clock. Nothing is stated of the value.
#[verifier::external_body]
pub fn current_timestamp() -> (now: u64) {
    jsonwebtoken::get_current_timestamp()
}

/// A token for a fresh random user that expires now: the state the server
/// starts with.
pub fn get_default_user_token() -> (token: UserToken)
    ensures
        is_canonical_uuid_text(token.id@),
        parse_uuid_text(token.id@) matches Some(b) && b[6] / 16 == 4 && b[8] / 64 == 2,
{
    let id = new_random_uuid();
    proof {
        lemma_uuid_text_canonical(id@);
        lemma_uuid_text_parses_back(id@);
    }
    UserToken { id: uuid_to_string(&id), exp: current_timestamp() }
}

} // verus!
