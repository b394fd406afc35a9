//! The enrollment index: for each student, the courses they enrolled in.
//!
//! The index says nothing that the courses do not say: it exists so that a
//! student's courses can be read without going through every course. It is
//! written in one place only, when an enrollment is granted, and the invariant
//! of the service keeps it in step with the courses.

use crate::course::Course;
use crate::error::ServiceError;
use crate::guard::{check_role, require_role};
use crate::model::UniversityView;
use crate::role::Role;
use crate::state::{course_views, text_views, University};
use candid::Principal;
use vstd::prelude::*;

verus! {

impl University {
    /// Adds `course_id` to the end of the list of `student`. The caller has
    /// made sure that it is not in the list yet.
    pub(crate) fn record_enrollment(&mut self, student: &Principal, course_id: &String)
        requires
            old(self).roles.wf(),
            old(self).profiles.wf(),
            old(self).enrollments.wf(),
        ensures
            final(self).roles.wf(),
            final(self).profiles.wf(),
            final(self).enrollments.wf(),
            final(self)@ == (UniversityView {
                enrollments: old(self)@.enrollments.insert(
                    *student,
                    old(self)@.enrolled_in(*student).push(course_id@),
                ),
                ..old(self)@
            }),
    {
        let mut list = match self.enrollments.insert(*student, Vec::new()) {
            Some(list) => list,
            None => Vec::new(),
        };
        list.push(course_id.clone());
        assert(text_views(list@) == old(self)@.enrolled_in(*student).push(course_id@));
        self.enrollments.insert(*student, list);
    }

    /// The courses that the calling student enrolled in, in order of
    /// enrollment. An identifier in the student's list that named no course
    /// would be left out; in a well-formed state there is none.
    pub fn get_my_enrolled_courses(&self, caller: &Principal) -> (r: Result<
        Vec<Course>,
        ServiceError,
    >)
        requires
            self.wf(),
        ensures
            match check_role(self@.roles, *caller, Role::Student) {
                Ok(_) => r is Ok && course_views(r->Ok_0@) == self@.resolve(
                    self@.enrolled_in(*caller),
                ) && forall|k: int| 0 <= k < r->Ok_0@.len() ==> (#[trigger] r->Ok_0@[k]).wf(),
                Err(e) => r == Err::<Vec<Course>, ServiceError>(e),
            },
    {
        match require_role(&self.roles, caller, Role::Student) {
            Err(e) => {
                return Err(e);
            },
            Ok(_) => {},
        }
        let mut found: Vec<Course> = Vec::new();
        if let Some(ids) = self.enrollments.get(caller) {
            let ghost wanted = self@.enrolled_in(*caller);
            let mut j: usize = 0;
            while j < ids.len()
                invariant
                    self.wf(),
                    j <= ids.len(),
                    wanted == text_views(ids@),
                    course_views(found@) == self@.resolve(wanted.subrange(0, j as int)),
                    forall|k: int| 0 <= k < found@.len() ==> (#[trigger] found@[k]).wf(),
                decreases ids.len() - j,
            {
                assert(wanted.subrange(0, j + 1).drop_last() =~= wanted.subrange(0, j as int));
                if let Some(i) = self.course_position(&ids[j]) {
                    found.push(self.courses[i].clone());
                }
                j += 1;
            }
            assert(wanted.subrange(0, j as int) =~= wanted);
        }
        Ok(found)
    }
}

} // verus!
