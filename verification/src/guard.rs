//! Who may do what.
//!
//! Every operation begins with one of the checks below. A check looks at the
//! caller and at the role bound to the caller, and at nothing else. There is no
//! hierarchy among roles: a check for one role is met by that role only.

use crate::course::{Course, CourseStatus, CourseView};
use crate::error::ServiceError;
use crate::principal::{is_anonymous, is_anonymous_principal, principal_eq};
use crate::principal_map::PrincipalMap;
use crate::role::Role;
use crate::state::University;
use candid::Principal;
use vstd::prelude::*;

verus! {

/// The role that `p` holds: the one bound to it, or `Guest` if none is.
pub open spec fn role_of(roles: Map<Principal, Role>, p: Principal) -> Role {
    if roles.contains_key(p) {
        roles[p]
    } else {
        Role::Guest
    }
}

/// Whether `role` is bound to `p`. A principal without a binding holds no
/// role in this sense, not even `Guest`.
pub open spec fn holds_role(roles: Map<Principal, Role>, p: Principal, role: Role) -> bool {
    roles.contains_key(p) && roles[p] == role
}

/// The caller must not be anonymous and must have a role bound.
pub open spec fn check_registered(roles: Map<Principal, Role>, caller: Principal) -> Result<
    (),
    ServiceError,
> {
    if is_anonymous(caller) {
        Err(ServiceError::Unauthenticated)
    } else if !roles.contains_key(caller) {
        Err(ServiceError::Unauthorized)
    } else {
        Ok(())
    }
}

/// The caller must not be anonymous and must hold exactly `role`.
pub open spec fn check_role(roles: Map<Principal, Role>, caller: Principal, role: Role) -> Result<
    (),
    ServiceError,
> {
    if is_anonymous(caller) {
        Err(ServiceError::Unauthenticated)
    } else if !holds_role(roles, caller, role) {
        Err(ServiceError::Unauthorized)
    } else {
        Ok(())
    }
}

/// The caller must not be anonymous and must hold `Admin` or `Developer`.
pub open spec fn check_admin_or_developer(
    roles: Map<Principal, Role>,
    caller: Principal,
) -> Result<(), ServiceError> {
    if is_anonymous(caller) {
        Err(ServiceError::Unauthenticated)
    } else if !holds_role(roles, caller, Role::Admin) && !holds_role(
        roles,
        caller,
        Role::Developer,
    ) {
        Err(ServiceError::Unauthorized)
    } else {
        Ok(())
    }
}

/// Whether `viewer` gets to see `course` in a listing.
///
/// A draft, a rejected and an archived course show to admins and to the
/// professor who owns them; a course that is proposed or in voting shows to
/// students as well; an approved course shows to everyone who has a role bound.
pub open spec fn visible_to(roles: Map<Principal, Role>, viewer: Principal, course: CourseView) -> bool {
    let admin = holds_role(roles, viewer, Role::Admin);
    let student = holds_role(roles, viewer, Role::Student);
    let owner = holds_role(roles, viewer, Role::Professor) && course.professor_id == viewer;
    match course.status {
        CourseStatus::Draft => admin || owner,
        CourseStatus::Proposed => admin || student || owner,
        CourseStatus::Voting => admin || student || owner,
        CourseStatus::Approved => roles.contains_key(viewer),
        CourseStatus::Rejected => admin || owner,
        CourseStatus::Archived => admin || owner,
    }
}

/// The role bound to `p`, if any.
pub fn bound_role(roles: &PrincipalMap<Role>, p: &Principal) -> (r: Option<Role>)
    requires
        roles.wf(),
    ensures
        r == if roles@.contains_key(*p) {
            Some(roles@[*p])
        } else {
            None
        },
{
    match roles.get(p) {
        Some(role) => Some(*role),
        None => None,
    }
}

/// Whether `role` is bound to `p`.
pub fn has_role(roles: &PrincipalMap<Role>, p: &Principal, role: Role) -> (held: bool)
    requires
        roles.wf(),
    ensures
        held == holds_role(roles@, *p, role),
{
    match roles.get(p) {
        Some(bound) => *bound == role,
        None => false,
    }
}

/// The caller must not be anonymous and must have a role bound.
pub fn require_registered(roles: &PrincipalMap<Role>, caller: &Principal) -> (r: Result<
    (),
    ServiceError,
>)
    requires
        roles.wf(),
    ensures
        r == check_registered(roles@, *caller),
{
    if is_anonymous_principal(caller) {
        Err(ServiceError::Unauthenticated)
    } else if !roles.contains_key(caller) {
        Err(ServiceError::Unauthorized)
    } else {
        Ok(())
    }
}

/// The caller must not be anonymous and must hold exactly `role`.
pub fn require_role(roles: &PrincipalMap<Role>, caller: &Principal, role: Role) -> (r: Result<
    (),
    ServiceError,
>)
    requires
        roles.wf(),
    ensures
        r == check_role(roles@, *caller, role),
{
    if is_anonymous_principal(caller) {
        Err(ServiceError::Unauthenticated)
    } else if !has_role(roles, caller, role) {
        Err(ServiceError::Unauthorized)
    } else {
        Ok(())
    }
}

/// The caller must not be anonymous and must hold `Admin` or `Developer`.
pub fn require_admin_or_developer(roles: &PrincipalMap<Role>, caller: &Principal) -> (r: Result<
    (),
    ServiceError,
>)
    requires
        roles.wf(),
    ensures
        r == check_admin_or_developer(roles@, *caller),
{
    if is_anonymous_principal(caller) {
        Err(ServiceError::Unauthenticated)
    } else if !has_role(roles, caller, Role::Admin) && !has_role(roles, caller, Role::Developer) {
        Err(ServiceError::Unauthorized)
    } else {
        Ok(())
    }
}

/// Whether `viewer` gets to see `course` in a listing.
pub fn can_see(roles: &PrincipalMap<Role>, viewer: &Principal, course: &Course) -> (seen: bool)
    requires
        roles.wf(),
    ensures
        seen == visible_to(roles@, *viewer, course@),
{
    let admin = has_role(roles, viewer, Role::Admin);
    let student = has_role(roles, viewer, Role::Student);
    let owner = has_role(roles, viewer, Role::Professor) && principal_eq(
        &course.professor_id,
        viewer,
    );
    match course.status {
        CourseStatus::Draft => admin || owner,
        CourseStatus::Proposed => admin || student || owner,
        CourseStatus::Voting => admin || student || owner,
        CourseStatus::Approved => roles.contains_key(viewer),
        CourseStatus::Rejected => admin || owner,
        CourseStatus::Archived => admin || owner,
    }
}

impl University {
    /// Whether `Admin` is bound to `p`.
    pub fn is_admin(&self, p: &Principal) -> (held: bool)
        requires
            self.wf(),
        ensures
            held == holds_role(self@.roles, *p, Role::Admin),
    {
        has_role(&self.roles, p, Role::Admin)
    }

    /// Whether `Professor` is bound to `p`.
    pub fn is_professor(&self, p: &Principal) -> (held: bool)
        requires
            self.wf(),
        ensures
            held == holds_role(self@.roles, *p, Role::Professor),
    {
        has_role(&self.roles, p, Role::Professor)
    }

    /// Whether `Student` is bound to `p`.
    pub fn is_student(&self, p: &Principal) -> (held: bool)
        requires
            self.wf(),
        ensures
            held == holds_role(self@.roles, *p, Role::Student),
    {
        has_role(&self.roles, p, Role::Student)
    }

    /// The caller must be an admin.
    pub fn require_admin(&self, caller: &Principal) -> (r: Result<(), ServiceError>)
        requires
            self.wf(),
        ensures
            r == check_role(self@.roles, *caller, Role::Admin),
    {
        require_role(&self.roles, caller, Role::Admin)
    }

    /// The caller must be an admin or a developer.
    pub fn require_developer_or_admin(&self, caller: &Principal) -> (r: Result<(), ServiceError>)
        requires
            self.wf(),
        ensures
            r == check_admin_or_developer(self@.roles, *caller),
    {
        require_admin_or_developer(&self.roles, caller)
    }

    /// The caller must be a professor.
    pub fn require_professor(&self, caller: &Principal) -> (r: Result<(), ServiceError>)
        requires
            self.wf(),
        ensures
            r == check_role(self@.roles, *caller, Role::Professor),
    {
        require_role(&self.roles, caller, Role::Professor)
    }

    /// The caller must be a student.
    pub fn require_student(&self, caller: &Principal) -> (r: Result<(), ServiceError>)
        requires
            self.wf(),
        ensures
            r == check_role(self@.roles, *caller, Role::Student),
    {
        require_role(&self.roles, caller, Role::Student)
    }

    /// The caller must have a role bound, whichever it is.
    pub fn require_registered_user(&self, caller: &Principal) -> (r: Result<(), ServiceError>)
        requires
            self.wf(),
        ensures
            r == check_registered(self@.roles, *caller),
    {
        require_registered(&self.roles, caller)
    }
}

} // verus!
