//! Identity generation and credential handling: the random identifiers,
//! the string comparison the registry lookups use, and the decision on
//! what the call metadata must carry.

use vstd::prelude::*;
use vstd::string::StrSliceExecFns;

use crate::errors::ServiceError;

verus! {

/// The full identity issued to an authenticated session: the public id,
/// the secret capability token, and the display name.
pub struct Identity {
    pub id: String,
    pub token: String,
    pub name: String,
}

/// Relies on uuid::Uuid::new_v4 (via its hyphenated Display form): a
/// random, collision-resistant identifier. Nothing is promised of the
/// value; the registry itself checks freshness against the ids it holds.
#[verifier::external_body]
pub fn fresh_uuid() -> (r: String) {
    uuid::Uuid::new_v4().to_string()
}

/// True exactly when the two strings hold the same characters.
pub fn str_eq(a: &str, b: &str) -> (r: bool)
    ensures
        r == (a@ == b@),
{
    let a_len = a.unicode_len();
    let b_len = b.unicode_len();
    if a_len != b_len {
        return false;
    }
    let mut i: usize = 0;
    while i < a_len
        invariant
            a_len == a@.len(),
            a@.len() == b@.len(),
            i <= a_len,
            forall|k: int| 0 <= k < i ==> a@[k] == b@[k],
        decreases a_len - i,
    {
        if a.get_char(i) != b.get_char(i) {
            return false;
        }
        i += 1;
    }
    proof {
        assert(a@ =~= b@);
    }
    true
}

/// Decides a call's credentials: metadata that carries both a `user_id`
/// and a `user_token` value is accepted with exactly that pair; a missing
/// (or, handed in as `None`, malformed) value is `Unauthenticated`.
pub fn credentials_from_metadata(user_id: Option<String>, user_token: Option<String>) -> (r:
    Result<(String, String), ServiceError>)
    ensures
        r is Ok <==> (user_id is Some && user_token is Some),
        r matches Ok(c) ==> (user_id matches Some(i) && c.0 == i) && (user_token matches Some(t)
            && c.1 == t),
        r is Err ==> r == Err::<(String, String), ServiceError>(ServiceError::Unauthenticated),
{
    match (user_id, user_token) {
        (Some(id), Some(token)) => Ok((id, token)),
        _ => Err(ServiceError::Unauthenticated),
    }
}

} // verus!
