//! The ways an operation can be refused.

use vstd::prelude::*;

verus! {

/// Why an operation was refused.
#[derive(Clone, Copy, Debug, PartialEq, Eq, Hash, Structural)]
pub enum ServiceError {
    /// The caller is the anonymous principal.
    Unauthenticated,
    /// The caller is known but lacks the role, or the ownership, that the
    /// operation asks for.
    Unauthorized,
    /// No course has the given identifier.
    NotFound,
    /// The request repeats something already recorded: a second vote, a second
    /// enrollment, or an identifier that is already taken.
    Conflict,
    /// The course is in a status from which the operation is not allowed.
    InvalidState,
}

} // verus!
