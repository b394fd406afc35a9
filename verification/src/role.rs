//! Roles.

use vstd::prelude::*;

verus! {

/// The role bound to a principal. A principal holds exactly one role at a
/// time; one that was never bound counts as `Guest`.
#[derive(Clone, Copy, Debug, PartialEq, Eq, Hash, Structural)]
pub enum Role {
    Admin,
    Student,
    Developer,
    Professor,
    Guest,
}

} // verus!
