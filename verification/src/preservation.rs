//! The invariant of the service holds at the start and is kept by every
//! operation.

use crate::course::CourseView;
use crate::model::{course_id_text, UniversityView};
use crate::profile::UserProfileView;
use crate::role::Role;
use candid::Principal;
use vstd::prelude::*;

verus! {

/// Whether `a` and `b` agree in all that is fixed when a course is created.
pub open spec fn same_record(a: CourseView, b: CourseView) -> bool {
    &&& a.id == b.id
    &&& a.title == b.title
    &&& a.description == b.description
    &&& a.professor_id == b.professor_id
    &&& a.created_at == b.created_at
}

/// Each step of the lifecycle keeps a course well-formed, and changes neither
/// its identifier, nor its title, description, owner or time of creation.
pub proof fn lemma_steps_keep_course(course: CourseView, caller: Principal)
    requires
        course.wf(),
    ensures
        course.propose(caller) matches Ok(next) ==> next.wf() && same_record(course, next)
            && next.enrolled_students == course.enrolled_students,
        course.vote(caller) matches Ok(next) ==> next.wf() && same_record(course, next)
            && next.enrolled_students == course.enrolled_students,
        course.approve() matches Ok(next) ==> next.wf() && same_record(course, next)
            && next.enrolled_students == course.enrolled_students,
        course.reject() matches Ok(next) ==> next.wf() && same_record(course, next)
            && next.enrolled_students == course.enrolled_students,
        course.enroll(caller) matches Ok(next) ==> next.wf() && same_record(course, next),
{
}

/// The invariant holds when the service starts.
pub proof fn lemma_init_wf(deployer: Principal)
    ensures
        UniversityView::init(deployer).wf(),
{
}

/// A login keeps the invariant.
pub proof fn lemma_login_wf(state: UniversityView, caller: Principal, requested: Role)
    requires
        state.wf(),
    ensures
        state.login_as_role(caller, requested) matches Ok(next) ==> next.wf(),
{
    if let Ok(next) = state.login_as_role(caller, requested) {
        lemma_same_courses_wf(state, next);
    }
}

/// An assignment of a role keeps the invariant.
pub proof fn lemma_assign_role_wf(
    state: UniversityView,
    caller: Principal,
    target: Principal,
    role: Role,
)
    requires
        state.wf(),
    ensures
        state.assign_role(caller, target, role) matches Ok(next) ==> next.wf(),
{
    if let Ok(next) = state.assign_role(caller, target, role) {
        lemma_same_courses_wf(state, next);
    }
}

/// Saving a profile keeps the invariant.
pub proof fn lemma_save_profile_wf(state: UniversityView, caller: Principal, profile: UserProfileView)
    requires
        state.wf(),
    ensures
        state.save_profile(caller, profile) matches Ok(next) ==> next.wf(),
{
    if let Ok(next) = state.save_profile(caller, profile) {
        lemma_same_courses_wf(state, next);
    }
}

/// What the invariant says of courses and enrollments does not depend on the
/// roles and profiles.
proof fn lemma_same_courses_wf(state: UniversityView, next: UniversityView)
    requires
        state.wf(),
        next.courses == state.courses,
        next.enrollments == state.enrollments,
        next.profiles_keyed(),
    ensures
        next.wf(),
{
    assert forall|student: Principal| next.enrolled_in(student) == state.enrolled_in(student) by {}
    assert forall|id: Seq<char>| next.has_course(id) == state.has_course(id) by {}
}

/// Creating a course keeps the invariant: the new identifier is in nobody's
/// list, since every identifier in a list names a course that was there before.
pub proof fn lemma_create_course_wf(
    state: UniversityView,
    caller: Principal,
    clock: u64,
    title: Seq<char>,
    description: Seq<char>,
)
    requires
        state.wf(),
    ensures
        state.create_course(caller, clock, title, description) matches Ok(next) ==> next.wf(),
{
    if let Ok(next) = state.create_course(caller, clock, title, description) {
        assert forall|student: Principal| next.enrolled_in(student) == state.enrolled_in(
            student,
        ) by {}
        assert forall|i: int| 0 <= i < state.courses.len() implies next.courses[i]
            == state.courses[i] by {}
        assert(next.index_resolves()) by {
            assert forall|student: Principal, other: Seq<char>| #[trigger]
                next.enrolled_in(student).contains(other) implies next.has_course(other) by {
                assert(next.courses[state.course_index(other)].id == other);
            }
        }
    }
}

/// Replacing a course by one with the same identifier and the same enrolled
/// students keeps the invariant.
pub proof fn lemma_with_course_wf(state: UniversityView, i: int, course: CourseView)
    requires
        state.wf(),
        0 <= i < state.courses.len(),
        course.wf(),
        course.id == state.courses[i].id,
        course.enrolled_students == state.courses[i].enrolled_students,
    ensures
        state.with_course(i, course).wf(),
{
    let next = state.with_course(i, course);
    assert forall|student: Principal| next.enrolled_in(student) == state.enrolled_in(student) by {}
    assert forall|k: int| 0 <= k < next.courses.len() implies (#[trigger] next.courses[k]).id
        == state.courses[k].id && next.courses[k].enrolled_students
        == state.courses[k].enrolled_students by {}
    assert(next.index_resolves()) by {
        assert forall|student: Principal, id: Seq<char>| #[trigger]
            next.enrolled_in(student).contains(id) implies next.has_course(id) by {
            assert(next.courses[state.course_index(id)].id == id);
        }
    }
}

/// Proposing a course keeps the invariant.
pub proof fn lemma_propose_wf(state: UniversityView, caller: Principal, id: Seq<char>)
    requires
        state.wf(),
    ensures
        state.propose_course(caller, id) matches Ok(next) ==> next.wf(),
{
    if let Ok(next) = state.propose_course(caller, id) {
        state.lemma_course_found(id);
        lemma_steps_keep_course(state.course(id), caller);
        lemma_with_course_wf(state, state.course_index(id), state.course(id).propose(caller)->Ok_0);
    }
}

/// A vote keeps the invariant.
pub proof fn lemma_vote_wf(state: UniversityView, caller: Principal, id: Seq<char>)
    requires
        state.wf(),
    ensures
        state.vote_for_course(caller, id) matches Ok(next) ==> next.wf(),
{
    if let Ok(next) = state.vote_for_course(caller, id) {
        state.lemma_course_found(id);
        lemma_steps_keep_course(state.course(id), caller);
        lemma_with_course_wf(state, state.course_index(id), state.course(id).vote(caller)->Ok_0);
    }
}

/// An approval keeps the invariant.
pub proof fn lemma_approve_wf(state: UniversityView, caller: Principal, id: Seq<char>)
    requires
        state.wf(),
    ensures
        state.approve_course(caller, id) matches Ok(next) ==> next.wf(),
{
    if let Ok(next) = state.approve_course(caller, id) {
        state.lemma_course_found(id);
        lemma_steps_keep_course(state.course(id), caller);
        lemma_with_course_wf(state, state.course_index(id), state.course(id).approve()->Ok_0);
    }
}

/// A rejection keeps the invariant.
pub proof fn lemma_reject_wf(state: UniversityView, caller: Principal, id: Seq<char>)
    requires
        state.wf(),
    ensures
        state.reject_course(caller, id) matches Ok(next) ==> next.wf(),
{
    if let Ok(next) = state.reject_course(caller, id) {
        state.lemma_course_found(id);
        lemma_steps_keep_course(state.course(id), caller);
        lemma_with_course_wf(state, state.course_index(id), state.course(id).reject()->Ok_0);
    }
}

/// An enrollment keeps the invariant: the course and the student's list gain
/// the new pair together, and the list had not held the identifier before.
pub proof fn lemma_enroll_wf(state: UniversityView, caller: Principal, id: Seq<char>)
    requires
        state.wf(),
    ensures
        state.enroll_in_course(caller, id) matches Ok(next) ==> next.wf(),
{
    if let Ok(next) = state.enroll_in_course(caller, id) {
        state.lemma_course_found(id);
        let i = state.course_index(id);
        let before = state.courses[i];
        let old_list = state.enrolled_in(caller);
        let new_list = old_list.push(id);
        lemma_steps_keep_course(before, caller);
        assert forall|student: Principal| student != caller implies next.enrolled_in(student)
            == state.enrolled_in(student) by {}
        assert forall|k: int| 0 <= k < next.courses.len() && k != i implies (
        #[trigger] next.courses[k]) == state.courses[k] by {}
        assert(next.index_agrees()) by {
            assert forall|student: Principal, k: int| 0 <= k < next.courses.len() implies (
            #[trigger] next.courses[k].enrolled_students.contains(student)) == next.enrolled_in(
                student,
            ).contains(next.courses[k].id) by {
                if k == i {
                    lemma_push_contains(before.enrolled_students, caller, student);
                    if student == caller {
                        assert(new_list[old_list.len() as int] == id);
                    }
                } else if student == caller {
                    lemma_push_contains(old_list, id, state.courses[k].id);
                }
            }
        }
        assert(next.index_resolves()) by {
            assert forall|student: Principal, other: Seq<char>| #[trigger]
                next.enrolled_in(student).contains(other) implies next.has_course(other) by {
                if student == caller {
                    lemma_push_contains(old_list, id, other);
                }
                if other != id {
                    assert(next.courses[state.course_index(other)].id == other);
                }
            }
        }
        assert(next.index_unique()) by {
            assert forall|student: Principal| (#[trigger] next.enrolled_in(
                student,
            )).no_duplicates() by {
                if student == caller {
                    lemma_push_fresh(old_list, id);
                }
            }
        }
    }
}

/// What a sequence contains after one more element is pushed.
pub proof fn lemma_push_contains<A>(s: Seq<A>, pushed: A, x: A)
    ensures
        s.push(pushed).contains(x) == (s.contains(x) || x == pushed),
{
    let t = s.push(pushed);
    if s.contains(x) {
        assert(t[s.index_of(x)] == x);
    }
    if x == pushed {
        assert(t[s.len() as int] == x);
    }
    if t.contains(x) && x != pushed {
        assert(s[t.index_of(x)] == x);
    }
}

/// Pushing an element that is not there keeps a sequence free of duplicates.
pub proof fn lemma_push_fresh<A>(s: Seq<A>, pushed: A)
    requires
        s.no_duplicates(),
        !s.contains(pushed),
    ensures
        s.push(pushed).no_duplicates(),
{
}

} // verus!
