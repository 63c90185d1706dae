//! Error kinds at the storage boundary and at the use-case boundary.

use vstd::prelude::*;

verus! {

/// What a storage backend reports.
#[derive(Clone, Copy, Debug, PartialEq, Eq, Structural)]
pub enum AccessModelError {
    /// No row matches.
    NotFoundError,
    /// A uniqueness constraint refused a new row.
    ConflictError,
    /// The backend could not be reached; a retry may succeed.
    TemporaryError,
    /// An unexpected, non-retryable storage fault.
    FatalError,
}

/// What a use case reports to its caller.
#[derive(Clone, Copy, Debug, PartialEq, Eq, Structural)]
pub enum UserUCError {
    NotFoundError,
    ConflictError,
    TemporaryError,
    FatalError,
    /// Authentication failed; which factor failed is not revealed.
    ForbiddenError,
}

/// Why a credential was turned down.
#[derive(Clone, Copy, Debug, PartialEq, Eq, Structural)]
pub enum TokenError {
    /// Bad signature or malformed structure.
    InvalidToken,
    /// The credential's expiry lies before the current time.
    ExpiredToken,
}

/// The use-case error that stands for a storage error.
pub open spec fn use_case_error(e: AccessModelError) -> UserUCError {
    match e {
        AccessModelError::NotFoundError => UserUCError::NotFoundError,
        AccessModelError::ConflictError => UserUCError::ConflictError,
        AccessModelError::TemporaryError => UserUCError::TemporaryError,
        AccessModelError::FatalError => UserUCError::FatalError,
    }
}

/// Maps a storage error to the use-case error of the same kind.
pub fn to_use_case_error(e: AccessModelError) -> (r: UserUCError)
    ensures
        r == use_case_error(e),
{
    match e {
        AccessModelError::NotFoundError => UserUCError::NotFoundError,
        AccessModelError::ConflictError => UserUCError::ConflictError,
        AccessModelError::TemporaryError => UserUCError::TemporaryError,
        AccessModelError::FatalError => UserUCError::FatalError,
    }
}

} // verus!
