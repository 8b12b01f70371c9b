//! The error taxonomy shared by every registry and endpoint operation.

use vstd::prelude::*;

verus! {

/// The failure kinds a caller-facing operation can surface.
///
/// `Unauthenticated` covers missing or mismatched credentials,
/// `NotFound` an unknown user id (or a mailbox consumer that is already
/// taken), `AlreadyExists` a registration under an id that is still
/// present, and `Internal` everything the caller cannot repair: a full or
/// closed mailbox, or a malformed request.
#[derive(Clone, Copy, PartialEq, Eq, Structural, Debug)]
pub enum ServiceError {
    Unauthenticated,
    NotFound,
    AlreadyExists,
    Internal,
}

impl ServiceError {
    /// A short human-readable description, for logs and RPC status messages.
    pub fn message(&self) -> (r: &'static str)
        ensures
            r@ == self.spec_message(),
    {
        match self {
            ServiceError::Unauthenticated => "could not authenticate",
            ServiceError::NotFound => "user id not found",
            ServiceError::AlreadyExists => "user already exists",
            ServiceError::Internal => "internal error",
        }
    }

    pub open spec fn spec_message(self) -> Seq<char> {
        match self {
            ServiceError::Unauthenticated => "could not authenticate"@,
            ServiceError::NotFound => "user id not found"@,
            ServiceError::AlreadyExists => "user already exists"@,
            ServiceError::Internal => "internal error"@,
        }
    }
}

} // verus!
