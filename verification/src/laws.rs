//! What holds of the service, stated over its mathematical state and proved
//! from the definitions of the operations.

use crate::course::{CourseStatus, CourseView};
use crate::error::ServiceError;
use crate::guard::{check_admin_or_developer, check_registered, check_role, holds_role, role_of};
use crate::history::{lemma_reachable_wf, Request};
use crate::model::UniversityView;
use crate::preservation::{lemma_enroll_wf, lemma_push_contains, lemma_vote_wf, same_record};
use crate::principal::is_anonymous;
use crate::role::Role;
use candid::Principal;
use vstd::prelude::*;

verus! {

// -------------------------------------------------------------------------
// Roles
// -------------------------------------------------------------------------
/// Whether `request` asks for a role for `p`: a login of `p`, or an assignment
/// of a role to `p`.
pub open spec fn asks_role_for(request: Request, p: Principal) -> bool {
    ||| (request matches Request::Login { caller, .. } && caller == p)
    ||| (request matches Request::AssignRole { user, .. } && user == p)
}

/// A request binds nobody but the principal it asks a role for.
pub proof fn law_roles_change_for_one_principal_only(
    state: UniversityView,
    request: Request,
    p: Principal,
)
    requires
        !state.roles.contains_key(p),
        !asks_role_for(request, p),
    ensures
        !state.after(request).roles.contains_key(p),
{
}

/// A principal that is not the deployer, never logged in and was never
/// assigned a role has no binding and holds `Guest`, whatever else was
/// requested since the service started.
pub proof fn law_never_assigned_is_guest(deployer: Principal, requests: Seq<Request>, p: Principal)
    requires
        p != deployer,
        forall|k: int| 0 <= k < requests.len() ==> !asks_role_for(#[trigger] requests[k], p),
    ensures
        !UniversityView::init(deployer).after_all(requests).roles.contains_key(p),
        role_of(UniversityView::init(deployer).after_all(requests).roles, p) == Role::Guest,
    decreases requests.len(),
{
    if requests.len() > 0 {
        let earlier = requests.drop_last();
        assert forall|k: int| 0 <= k < earlier.len() implies !asks_role_for(
            #[trigger] earlier[k],
            p,
        ) by {
            assert(earlier[k] == requests[k]);
        }
        law_never_assigned_is_guest(deployer, earlier, p);
        law_roles_change_for_one_principal_only(
            UniversityView::init(deployer).after_all(earlier),
            requests.last(),
            p,
        );
    }
}

/// Right after the start, the deployer is the one principal that holds
/// `Developer`, and it is the recorded deployer.
pub proof fn law_deployer_is_the_only_developer(deployer: Principal)
    ensures
        UniversityView::init(deployer).deployer == Some(deployer),
        forall|p: Principal|
            holds_role(UniversityView::init(deployer).roles, p, Role::Developer) <==> p
                == deployer,
{
}

/// A new caller that asks for `Admin` gets it if nobody holds `Admin`, and
/// gets `Guest` otherwise.
///
/// This is about a caller without a role: one that has a role keeps it,
/// whatever it asks for.
pub proof fn law_admin_on_request_only_for_the_first(state: UniversityView, caller: Principal)
    requires
        !is_anonymous(caller),
        !state.roles.contains_key(caller),
    ensures
        state.login_as_role(caller, Role::Admin) is Ok,
        ({
            let next = state.after(Request::Login { caller, requested: Role::Admin });
            role_of(next.roles, caller) == if state.has_admin() {
                Role::Guest
            } else {
                Role::Admin
            }
        }),
{
}

/// Whoever becomes an admin by logging in asked for it while nobody held
/// `Admin`.
pub proof fn law_login_makes_no_second_admin(
    state: UniversityView,
    caller: Principal,
    requested: Role,
)
    requires
        state.login_as_role(caller, requested) matches Ok(next) && holds_role(
            next.roles,
            caller,
            Role::Admin,
        ),
        !holds_role(state.roles, caller, Role::Admin),
    ensures
        requested == Role::Admin,
        !state.has_admin(),
{
}

/// A caller that has a role keeps it when logging in again, whatever it asks
/// for.
pub proof fn law_login_is_idempotent(state: UniversityView, caller: Principal, requested: Role)
    requires
        !is_anonymous(caller),
        state.roles.contains_key(caller),
    ensures
        state.login_as_role(caller, requested) == Ok::<UniversityView, ServiceError>(state),
{
}

/// No request takes a binding away, and none changes who the deployer is. A
/// principal that has a role gets another one only by an assignment.
pub proof fn law_bindings_are_never_removed(state: UniversityView, request: Request, p: Principal)
    requires
        state.roles.contains_key(p),
    ensures
        state.after(request).roles.contains_key(p),
        state.after(request).deployer == state.deployer,
        state.after(request).roles[p] != state.roles[p] ==> (request matches Request::AssignRole {
            user,
            ..
        } && user == p),
{
}

/// No request removes a profile.
pub proof fn law_profiles_are_never_removed(state: UniversityView, request: Request, p: Principal)
    requires
        state.profiles.contains_key(p),
    ensures
        state.after(request).profiles.contains_key(p),
{
}

/// A profile is written only by a request of its owner to save it, and is
/// then stored under the owner.
pub proof fn law_profile_changes_only_by_owner(state: UniversityView, request: Request, p: Principal)
    requires
        state.after(request).profiles.contains_key(p),
        !state.profiles.contains_key(p) || state.after(request).profiles[p] != state.profiles[p],
    ensures
        request matches Request::SaveProfile { caller, profile } && caller == p && state.after(
            request,
        ).profiles[p] == profile.owned_by(p),
{
}

/// The anonymous principal is turned away by every check, whatever the state
/// holds.
pub proof fn law_anonymous_is_unauthenticated(roles: Map<Principal, Role>, caller: Principal, role: Role)
    requires
        is_anonymous(caller),
    ensures
        check_registered(roles, caller) == Err::<(), ServiceError>(ServiceError::Unauthenticated),
        check_role(roles, caller, role) == Err::<(), ServiceError>(ServiceError::Unauthenticated),
        check_admin_or_developer(roles, caller) == Err::<(), ServiceError>(
            ServiceError::Unauthenticated,
        ),
{
}

/// No request of the anonymous principal is granted, and none changes the
/// state.
pub proof fn law_anonymous_changes_nothing(state: UniversityView, request: Request)
    requires
        is_anonymous(request.caller()),
    ensures
        state.outcome(request) == Err::<UniversityView, ServiceError>(
            ServiceError::Unauthenticated,
        ),
        state.after(request) == state,
{
}

// -------------------------------------------------------------------------
// Votes
// -------------------------------------------------------------------------
/// In every state that the service can reach, the vote count of each course
/// is the number of students who voted for it.
pub proof fn law_vote_count_is_number_of_voters(
    deployer: Principal,
    requests: Seq<Request>,
    i: int,
)
    requires
        0 <= i < UniversityView::init(deployer).after_all(requests).courses.len(),
    ensures
        ({
            let course = UniversityView::init(deployer).after_all(requests).courses[i];
            course.vote_count == course.voters.to_set().len()
        }),
{
    lemma_reachable_wf(deployer, requests);
    let course = UniversityView::init(deployer).after_all(requests).courses[i];
    course.voters.unique_seq_to_set();
}

/// In every state that the service can reach, nobody occurs twice among the
/// voters of a course, and nobody twice among its enrolled students.
pub proof fn law_nobody_counts_twice(deployer: Principal, requests: Seq<Request>, i: int)
    requires
        0 <= i < UniversityView::init(deployer).after_all(requests).courses.len(),
    ensures
        ({
            let course = UniversityView::init(deployer).after_all(requests).courses[i];
            course.voters.no_duplicates() && course.enrolled_students.no_duplicates()
        }),
{
    lemma_reachable_wf(deployer, requests);
    assert(UniversityView::init(deployer).after_all(requests).courses[i].wf());
}

/// A student who has voted for a course cannot vote for it again: the second
/// vote is refused as a conflict, and neither the count nor the voters change.
pub proof fn law_second_vote_is_refused(state: UniversityView, student: Principal, id: Seq<char>)
    requires
        state.wf(),
        state.vote_for_course(student, id) is Ok,
    ensures
        ({
            let voted = state.after(Request::Vote { caller: student, id });
            &&& voted.vote_for_course(student, id) == Err::<UniversityView, ServiceError>(
                ServiceError::Conflict,
            )
            &&& voted.after(Request::Vote { caller: student, id }) == voted
        }),
{
    let voted = state.after(Request::Vote { caller: student, id });
    state.lemma_course_found(id);
    let i = state.course_index(id);
    lemma_vote_wf(state, student, id);
    voted.lemma_course_at(i);
    lemma_push_contains(state.course(id).voters, student, student);
}

// -------------------------------------------------------------------------
// The lifecycle
// -------------------------------------------------------------------------
/// No step takes a draft to `Approved`, and approving a draft is refused.
pub proof fn law_no_step_approves_a_draft(course: CourseView, caller: Principal)
    requires
        course.status == CourseStatus::Draft,
    ensures
        course.approve() == Err::<CourseView, ServiceError>(ServiceError::InvalidState),
        !(course.propose(caller) matches Ok(next) && next.status == CourseStatus::Approved),
        !(course.vote(caller) matches Ok(next) && next.status == CourseStatus::Approved),
        !(course.reject() matches Ok(next) && next.status == CourseStatus::Approved),
        !(course.enroll(caller) matches Ok(next) && next.status == CourseStatus::Approved),
{
}

/// A course that is a draft is not approved after the next request, whatever
/// that request is. Approval is reached from `Proposed` or `Voting` only.
pub proof fn law_draft_is_not_approved_by_one_request(
    state: UniversityView,
    request: Request,
    i: int,
)
    requires
        0 <= i < state.courses.len(),
        state.courses[i].status == CourseStatus::Draft,
    ensures
        i < state.after(request).courses.len(),
        state.after(request).courses[i].status != CourseStatus::Approved,
{
    lemma_course_steps_in_place(state, request, i);
}

/// A course that gets approved by a request was proposed or in voting before.
pub proof fn law_approval_comes_from_voting(state: UniversityView, request: Request, i: int)
    requires
        0 <= i < state.courses.len(),
        state.courses[i].status != CourseStatus::Approved,
        state.after(request).courses[i].status == CourseStatus::Approved,
    ensures
        state.courses[i].open_for_voting(),
        request is Approve,
{
    lemma_course_steps_in_place(state, request, i);
}

/// A request leaves each course at its position, and either leaves it as it
/// is or takes one step of its lifecycle on it.
pub proof fn lemma_course_steps_in_place(state: UniversityView, request: Request, i: int)
    requires
        0 <= i < state.courses.len(),
    ensures
        i < state.after(request).courses.len(),
        ({
            let before = state.courses[i];
            let after = state.after(request).courses[i];
            let caller = request.caller();
            ||| after == before
            ||| request is Propose && before.propose(caller) == Ok::<CourseView, ServiceError>(after)
            ||| request is Vote && before.vote(caller) == Ok::<CourseView, ServiceError>(after)
            ||| request is Approve && before.approve() == Ok::<CourseView, ServiceError>(after)
            ||| request is Reject && before.reject() == Ok::<CourseView, ServiceError>(after)
            ||| request is Enroll && before.enroll(caller) == Ok::<CourseView, ServiceError>(after)
        }),
{
    match request {
        Request::Propose { caller, id } => {
            if state.has_course(id) {
                state.lemma_course_found(id);
            }
        },
        Request::Vote { caller, id } => {
            if state.has_course(id) {
                state.lemma_course_found(id);
            }
        },
        Request::Approve { caller, id } => {
            if state.has_course(id) {
                state.lemma_course_found(id);
            }
        },
        Request::Reject { caller, id } => {
            if state.has_course(id) {
                state.lemma_course_found(id);
            }
        },
        Request::Enroll { caller, id } => {
            if state.has_course(id) {
                state.lemma_course_found(id);
            }
        },
        _ => {},
    }
}

/// `Rejected` and `Archived` are final: a course in one of them keeps its
/// status whatever is requested.
pub proof fn law_rejected_and_archived_are_final(state: UniversityView, request: Request, i: int)
    requires
        0 <= i < state.courses.len(),
        state.courses[i].status == CourseStatus::Rejected || state.courses[i].status
            == CourseStatus::Archived,
    ensures
        i < state.after(request).courses.len(),
        state.after(request).courses[i] == state.courses[i],
{
    lemma_course_steps_in_place(state, request, i);
}

/// An approved course stays approved: the only request that changes it is an
/// enrollment, which adds a student and leaves the status alone.
pub proof fn law_approved_stays_approved(state: UniversityView, request: Request, i: int)
    requires
        0 <= i < state.courses.len(),
        state.courses[i].status == CourseStatus::Approved,
    ensures
        i < state.after(request).courses.len(),
        state.after(request).courses[i].status == CourseStatus::Approved,
{
    lemma_course_steps_in_place(state, request, i);
}

/// No operation archives a course: in every state that the service can
/// reach, no course is `Archived`.
pub proof fn law_no_course_is_archived(deployer: Principal, requests: Seq<Request>, i: int)
    requires
        0 <= i < UniversityView::init(deployer).after_all(requests).courses.len(),
    ensures
        UniversityView::init(deployer).after_all(requests).courses[i].status
            != CourseStatus::Archived,
    decreases requests.len(),
{
    if requests.len() > 0 {
        let before = UniversityView::init(deployer).after_all(requests.drop_last());
        let request = requests.last();
        if i < before.courses.len() {
            law_no_course_is_archived(deployer, requests.drop_last(), i);
            lemma_course_steps_in_place(before, request, i);
        } else {
            // The course is new: this request created it, as a draft.
            assert(request is CreateCourse);
        }
    }
}

/// No request removes a course, changes the identifier, title, description or
/// time of creation of one, or gives it to another professor.
pub proof fn law_course_record_is_fixed(state: UniversityView, request: Request, i: int)
    requires
        0 <= i < state.courses.len(),
    ensures
        i < state.after(request).courses.len(),
        same_record(state.courses[i], state.after(request).courses[i]),
{
    lemma_course_steps_in_place(state, request, i);
}

// -------------------------------------------------------------------------
// Enrollment
// -------------------------------------------------------------------------
/// A student who is not yet enrolled in a course can enroll exactly when the
/// course is approved.
///
/// This is about a caller who holds `Student`, a course that exists and a
/// student who is not enrolled in it: without any of the three the request is
/// refused whatever the status.
pub proof fn law_enrollment_needs_approval(state: UniversityView, student: Principal, id: Seq<char>)
    requires
        check_role(state.roles, student, Role::Student) is Ok,
        state.has_course(id),
        !state.course(id).enrolled_students.contains(student),
    ensures
        state.enroll_in_course(student, id) is Ok <==> state.course(id).status
            == CourseStatus::Approved,
        state.course(id).status != CourseStatus::Approved ==> state.enroll_in_course(student, id)
            == Err::<UniversityView, ServiceError>(ServiceError::InvalidState),
{
}

/// Enrollment is granted in an approved course only, whoever asks.
pub proof fn law_enrollment_only_when_approved(
    state: UniversityView,
    student: Principal,
    id: Seq<char>,
)
    requires
        state.enroll_in_course(student, id) is Ok,
    ensures
        state.course(id).status == CourseStatus::Approved,
{
}

/// A student who has enrolled in a course cannot enroll in it again: the
/// second request is refused as a conflict and changes nothing.
pub proof fn law_second_enrollment_is_refused(
    state: UniversityView,
    student: Principal,
    id: Seq<char>,
)
    requires
        state.wf(),
        state.enroll_in_course(student, id) is Ok,
    ensures
        ({
            let enrolled = state.after(Request::Enroll { caller: student, id });
            &&& enrolled.enroll_in_course(student, id) == Err::<UniversityView, ServiceError>(
                ServiceError::Conflict,
            )
            &&& enrolled.after(Request::Enroll { caller: student, id }) == enrolled
        }),
{
    let enrolled = state.after(Request::Enroll { caller: student, id });
    state.lemma_course_found(id);
    let i = state.course_index(id);
    lemma_enroll_wf(state, student, id);
    enrolled.lemma_course_at(i);
    lemma_push_contains(state.course(id).enrolled_students, student, student);
}

/// After a student has enrolled in a course, the student's list holds the
/// course's identifier exactly once: as its last entry and nowhere before.
pub proof fn law_enrolled_course_is_listed_once(
    state: UniversityView,
    student: Principal,
    id: Seq<char>,
)
    requires
        state.wf(),
        state.enroll_in_course(student, id) is Ok,
    ensures
        ({
            let list = state.after(Request::Enroll { caller: student, id }).enrolled_in(student);
            &&& list.len() == state.enrolled_in(student).len() + 1
            &&& list.last() == id
            &&& forall|k: int| 0 <= k < list.len() - 1 ==> list[k] != id
        }),
{
    let enrolled = state.after(Request::Enroll { caller: student, id });
    let list = enrolled.enrolled_in(student);
    lemma_enroll_wf(state, student, id);
    assert(list == state.enrolled_in(student).push(id) && list.no_duplicates());
}

/// A student's list only grows: a request leaves it as it is or adds one
/// identifier at its end.
pub proof fn law_enrollment_lists_only_grow(state: UniversityView, request: Request, student: Principal)
    ensures
        ({
            let before = state.enrolled_in(student);
            let after = state.after(request).enrolled_in(student);
            ||| after == before
            ||| (request matches Request::Enroll { caller, id } && caller == student && after
                == before.push(id))
        }),
{
}

/// In every state in which the invariant holds, a student's list and the
/// courses agree: the list names a course exactly when the course has the
/// student enrolled.
pub proof fn law_lists_agree_with_courses(state: UniversityView, student: Principal, id: Seq<char>)
    requires
        state.wf(),
    ensures
        state.enrolled_in(student).contains(id) <==> state.has_course(id) && state.course(
            id,
        ).enrolled_students.contains(student),
{
    if state.has_course(id) {
        state.lemma_course_found(id);
    }
}

/// In every state in which the invariant holds, each identifier in a
/// student's list names a course, so reading the list leaves nothing out.
pub proof fn law_every_listed_course_resolves(state: UniversityView, ids: Seq<Seq<char>>)
    requires
        forall|k: int| 0 <= k < ids.len() ==> state.has_course(#[trigger] ids[k]),
    ensures
        state.resolve(ids).len() == ids.len(),
        forall|k: int| 0 <= k < ids.len() ==> (#[trigger] state.resolve(ids)[k]) == state.course(ids[k]),
    decreases ids.len(),
{
    if ids.len() > 0 {
        law_every_listed_course_resolves(state, ids.drop_last());
    }
}

} // verus!
