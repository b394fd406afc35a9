//! The service as a mathematical state, and each operation as a function on it.
//!
//! `UniversityView` is what a `University` stands for: the role bindings, the
//! deployer, the profiles, the courses in order of creation, and for each
//! student the courses they enrolled in. An operation that changes the state
//! is a function from the state and its arguments to either the next state or
//! the reason for refusing the request; a refused request leaves the state as
//! it was. The executable operations are proved against these functions.

use crate::course::{CourseStatus, CourseView};
use crate::error::ServiceError;
use crate::guard::{check_admin_or_developer, check_registered, check_role, holds_role, visible_to};
use crate::principal::is_anonymous;
use crate::profile::UserProfileView;
use crate::role::Role;
use candid::Principal;
use vstd::prelude::*;

verus! {

/// The digit `d` as a character, for `d` below ten.
pub open spec fn digit_char(d: nat) -> char {
    seq!['0', '1', '2', '3', '4', '5', '6', '7', '8', '9'][d as int]
}

/// `n` written in decimal, without leading zeros.
pub open spec fn decimal_text(n: nat) -> Seq<char>
    decreases n,
{
    if n < 10 {
        seq![digit_char(n)]
    } else {
        decimal_text(n / 10).push(digit_char(n % 10))
    }
}

/// The identifier of the course created at clock value `clock`: the text
/// `course-` followed by the clock value in decimal.
pub open spec fn course_id_text(clock: u64) -> Seq<char> {
    seq!['c', 'o', 'u', 'r', 's', 'e', '-'] + decimal_text(clock as nat)
}

/// The state of the service as a mathematical value.
#[verifier::ext_equal]
pub struct UniversityView {
    /// The role bound to each principal that has one.
    pub roles: Map<Principal, Role>,
    /// The principal that started the service.
    pub deployer: Option<Principal>,
    /// The profile that each principal saved last.
    pub profiles: Map<Principal, UserProfileView>,
    /// All courses, in order of creation. None is ever removed.
    pub courses: Seq<CourseView>,
    /// For each student, the identifiers of the courses they enrolled in, in
    /// order of enrollment.
    pub enrollments: Map<Principal, Seq<Seq<char>>>,
}

impl UniversityView {
    // ---------------------------------------------------------------------
    // Reading the state
    // ---------------------------------------------------------------------
    /// Whether a course has the identifier `id`.
    pub open spec fn has_course(self, id: Seq<char>) -> bool {
        exists|i: int| 0 <= i < self.courses.len() && (#[trigger] self.courses[i]).id == id
    }

    /// The position of the course with identifier `id`; meaningful only where
    /// there is one.
    pub open spec fn course_index(self, id: Seq<char>) -> int {
        choose|i: int| 0 <= i < self.courses.len() && (#[trigger] self.courses[i]).id == id
    }

    /// The course with identifier `id`; meaningful only where there is one.
    pub open spec fn course(self, id: Seq<char>) -> CourseView {
        self.courses[self.course_index(id)]
    }

    /// The course with identifier `id`, if there is one.
    pub open spec fn find_course(self, id: Seq<char>) -> Option<CourseView> {
        if self.has_course(id) {
            Some(self.course(id))
        } else {
            None
        }
    }

    /// The identifiers of the courses that `student` enrolled in.
    pub open spec fn enrolled_in(self, student: Principal) -> Seq<Seq<char>> {
        if self.enrollments.contains_key(student) {
            self.enrollments[student]
        } else {
            Seq::empty()
        }
    }

    /// Whether any principal holds `Admin`.
    pub open spec fn has_admin(self) -> bool {
        exists|p: Principal| #[trigger] holds_role(self.roles, p, Role::Admin)
    }

    /// The role granted to a principal on its first login: the role it asks
    /// for, except that `Admin` is granted only while nobody holds it and is
    /// replaced by `Guest` otherwise.
    pub open spec fn first_login_role(self, requested: Role) -> Role {
        if requested == Role::Admin && self.has_admin() {
            Role::Guest
        } else {
            requested
        }
    }

    /// The state with the course at position `i` replaced by `course`.
    pub open spec fn with_course(self, i: int, course: CourseView) -> UniversityView {
        UniversityView { courses: self.courses.update(i, course), ..self }
    }

    /// Whether a listing for `viewer` under `filter` shows `course`.
    pub open spec fn lists(self, viewer: Principal, filter: Option<CourseStatus>, course: CourseView) -> bool {
        &&& filter matches Some(status) ==> course.status == status
        &&& visible_to(self.roles, viewer, course)
    }

    /// `lists` as a predicate on courses.
    pub open spec fn shows(self, viewer: Principal, filter: Option<CourseStatus>) -> spec_fn(
        CourseView,
    ) -> bool {
        |course: CourseView| self.lists(viewer, filter, course)
    }

    /// The listing for `viewer` under `filter`: the courses it shows, in order
    /// of creation.
    pub open spec fn listing(self, viewer: Principal, filter: Option<CourseStatus>) -> Seq<CourseView> {
        self.courses.filter(self.shows(viewer, filter))
    }

    /// The courses named by `ids`, in that order, leaving out any identifier
    /// that names no course.
    pub open spec fn resolve(self, ids: Seq<Seq<char>>) -> Seq<CourseView>
        decreases ids.len(),
    {
        if ids.len() == 0 {
            Seq::empty()
        } else if self.has_course(ids.last()) {
            self.resolve(ids.drop_last()).push(self.course(ids.last()))
        } else {
            self.resolve(ids.drop_last())
        }
    }

    // ---------------------------------------------------------------------
    // What holds of every reachable state
    // ---------------------------------------------------------------------
    /// No two courses share an identifier.
    pub open spec fn distinct_ids(self) -> bool {
        forall|i: int, j: int|
            0 <= i < j < self.courses.len() ==> (#[trigger] self.courses[i]).id != (
            #[trigger] self.courses[j]).id
    }

    /// Each course is well-formed.
    pub open spec fn courses_wf(self) -> bool {
        forall|i: int| 0 <= i < self.courses.len() ==> (#[trigger] self.courses[i]).wf()
    }

    /// A student is enrolled in a course exactly when the course's identifier
    /// is in the student's list.
    pub open spec fn index_agrees(self) -> bool {
        forall|student: Principal, i: int|
            0 <= i < self.courses.len() ==> (#[trigger] self.courses[i].enrolled_students.contains(
                student,
            )) == self.enrolled_in(student).contains(self.courses[i].id)
    }

    /// Every identifier in a student's list names a course.
    pub open spec fn index_resolves(self) -> bool {
        forall|student: Principal, id: Seq<char>| #[trigger]
            self.enrolled_in(student).contains(id) ==> self.has_course(id)
    }

    /// No identifier occurs twice in a student's list.
    pub open spec fn index_unique(self) -> bool {
        forall|student: Principal| (#[trigger] self.enrolled_in(student)).no_duplicates()
    }

    /// Each profile is stored under its owner.
    pub open spec fn profiles_keyed(self) -> bool {
        forall|p: Principal| #[trigger]
            self.profiles.contains_key(p) ==> self.profiles[p].profile_id == p
    }

    /// The invariant of the service.
    pub open spec fn wf(self) -> bool {
        &&& self.distinct_ids()
        &&& self.courses_wf()
        &&& self.index_agrees()
        &&& self.index_resolves()
        &&& self.index_unique()
        &&& self.profiles_keyed()
    }

    // ---------------------------------------------------------------------
    // The operations
    // ---------------------------------------------------------------------
    /// The state in which the service starts: `deployer` holds `Developer` and
    /// is recorded as the deployer, and there is nothing else.
    pub open spec fn init(deployer: Principal) -> UniversityView {
        UniversityView {
            roles: Map::empty().insert(deployer, Role::Developer),
            deployer: Some(deployer),
            profiles: Map::empty(),
            courses: Seq::empty(),
            enrollments: Map::empty(),
        }
    }

    /// `caller` logs in, asking for `requested`. A caller that has a role keeps
    /// it, whatever it asks for; a new caller is bound to
    /// `first_login_role(requested)`.
    pub open spec fn login_as_role(self, caller: Principal, requested: Role) -> Result<
        UniversityView,
        ServiceError,
    > {
        if is_anonymous(caller) {
            Err(ServiceError::Unauthenticated)
        } else if self.roles.contains_key(caller) {
            Ok(self)
        } else {
            Ok(
                UniversityView {
                    roles: self.roles.insert(caller, self.first_login_role(requested)),
                    ..self
                },
            )
        }
    }

    /// `caller`, an admin or a developer, binds `target` to `role`, replacing
    /// whatever `target` held.
    pub open spec fn assign_role(self, caller: Principal, target: Principal, role: Role) -> Result<
        UniversityView,
        ServiceError,
    > {
        match check_admin_or_developer(self.roles, caller) {
            Err(e) => Err(e),
            Ok(_) => Ok(UniversityView { roles: self.roles.insert(target, role), ..self }),
        }
    }

    /// `caller`, who has a role, saves `profile` as their own.
    pub open spec fn save_profile(self, caller: Principal, profile: UserProfileView) -> Result<
        UniversityView,
        ServiceError,
    > {
        match check_registered(self.roles, caller) {
            Err(e) => Err(e),
            Ok(_) => Ok(
                UniversityView {
                    profiles: self.profiles.insert(caller, profile.owned_by(caller)),
                    ..self
                },
            ),
        }
    }

    /// `caller`, a professor, creates a draft at clock value `clock`.
    pub open spec fn create_course(
        self,
        caller: Principal,
        clock: u64,
        title: Seq<char>,
        description: Seq<char>,
    ) -> Result<UniversityView, ServiceError> {
        match check_role(self.roles, caller, Role::Professor) {
            Err(e) => Err(e),
            Ok(_) => if self.has_course(course_id_text(clock)) {
                Err(ServiceError::Conflict)
            } else {
                Ok(
                    UniversityView {
                        courses: self.courses.push(
                            CourseView::draft(
                                course_id_text(clock),
                                title,
                                description,
                                caller,
                                clock,
                            ),
                        ),
                        ..self
                    },
                )
            },
        }
    }

    /// The state after a step on the course `id`, where `step` is what the
    /// step makes of that course.
    pub open spec fn step_course(self, id: Seq<char>, step: Result<CourseView, ServiceError>) -> Result<
        UniversityView,
        ServiceError,
    > {
        match step {
            Err(e) => Err(e),
            Ok(course) => Ok(self.with_course(self.course_index(id), course)),
        }
    }

    /// `caller`, a professor, proposes their draft `id`.
    pub open spec fn propose_course(self, caller: Principal, id: Seq<char>) -> Result<
        UniversityView,
        ServiceError,
    > {
        match check_role(self.roles, caller, Role::Professor) {
            Err(e) => Err(e),
            Ok(_) => if !self.has_course(id) {
                Err(ServiceError::NotFound)
            } else {
                self.step_course(id, self.course(id).propose(caller))
            },
        }
    }

    /// `caller`, a student, votes for the course `id`.
    pub open spec fn vote_for_course(self, caller: Principal, id: Seq<char>) -> Result<
        UniversityView,
        ServiceError,
    > {
        match check_role(self.roles, caller, Role::Student) {
            Err(e) => Err(e),
            Ok(_) => if !self.has_course(id) {
                Err(ServiceError::NotFound)
            } else {
                self.step_course(id, self.course(id).vote(caller))
            },
        }
    }

    /// `caller`, an admin, approves the course `id`.
    pub open spec fn approve_course(self, caller: Principal, id: Seq<char>) -> Result<
        UniversityView,
        ServiceError,
    > {
        match check_role(self.roles, caller, Role::Admin) {
            Err(e) => Err(e),
            Ok(_) => if !self.has_course(id) {
                Err(ServiceError::NotFound)
            } else {
                self.step_course(id, self.course(id).approve())
            },
        }
    }

    /// `caller`, an admin, rejects the course `id`.
    pub open spec fn reject_course(self, caller: Principal, id: Seq<char>) -> Result<
        UniversityView,
        ServiceError,
    > {
        match check_role(self.roles, caller, Role::Admin) {
            Err(e) => Err(e),
            Ok(_) => if !self.has_course(id) {
                Err(ServiceError::NotFound)
            } else {
                self.step_course(id, self.course(id).reject())
            },
        }
    }

    /// `caller`, a student, enrolls in the course `id`: the course records the
    /// student, and the student's list gains `id` at its end.
    pub open spec fn enroll_in_course(self, caller: Principal, id: Seq<char>) -> Result<
        UniversityView,
        ServiceError,
    > {
        match check_role(self.roles, caller, Role::Student) {
            Err(e) => Err(e),
            Ok(_) => if !self.has_course(id) {
                Err(ServiceError::NotFound)
            } else {
                match self.course(id).enroll(caller) {
                    Err(e) => Err(e),
                    Ok(course) => Ok(
                        UniversityView {
                            courses: self.courses.update(self.course_index(id), course),
                            enrollments: self.enrollments.insert(
                                caller,
                                self.enrolled_in(caller).push(id),
                            ),
                            ..self
                        },
                    ),
                }
            },
        }
    }

    // ---------------------------------------------------------------------
    // Facts about lookups
    // ---------------------------------------------------------------------
    /// Where identifiers are distinct, the course at position `i` is the one
    /// found under its identifier.
    pub proof fn lemma_course_at(self, i: int)
        requires
            self.distinct_ids(),
            0 <= i < self.courses.len(),
        ensures
            self.has_course(self.courses[i].id),
            self.course_index(self.courses[i].id) == i,
            self.course(self.courses[i].id) == self.courses[i],
    {
        let j = self.course_index(self.courses[i].id);
        assert(self.courses[j].id == self.courses[i].id);
    }

    /// A course that exists sits at its index.
    pub proof fn lemma_course_found(self, id: Seq<char>)
        requires
            self.has_course(id),
        ensures
            0 <= self.course_index(id) < self.courses.len(),
            self.course(id).id == id,
    {
    }
}

} // verus!
