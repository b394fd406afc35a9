//! Moving a course through its lifecycle.
//!
//! Each operation checks the caller first, then looks the course up, then
//! takes the step on the course, and changes the state only if all three
//! succeed: a refused request leaves everything as it was.

use crate::course::Course;
use crate::error::ServiceError;
use crate::guard::require_role;
use crate::preservation::{
    lemma_approve_wf, lemma_enroll_wf, lemma_propose_wf, lemma_reject_wf, lemma_vote_wf,
};
use crate::role::Role;
use crate::state::University;
use candid::Principal;
use vstd::prelude::*;

verus! {

impl University {
    /// The professor who owns the draft `course_id` proposes it.
    pub fn propose_course(&mut self, caller: &Principal, course_id: &String) -> (r: Result<
        Course,
        ServiceError,
    >)
        requires
            old(self).wf(),
        ensures
            final(self).wf(),
            match old(self)@.propose_course(*caller, course_id@) {
                Ok(next) => final(self)@ == next && r is Ok && r->Ok_0@ == next.course(course_id@)
                    && r->Ok_0.wf(),
                Err(e) => final(self)@ == old(self)@ && r == Err::<Course, ServiceError>(e),
            },
    {
        match require_role(&self.roles, caller, Role::Professor) {
            Err(e) => {
                return Err(e);
            },
            Ok(_) => {},
        }
        let i = match self.course_position(course_id) {
            Some(i) => i,
            None => {
                return Err(ServiceError::NotFound);
            },
        };
        let step = self.courses[i].propose(caller);
        proof {
            University::lemma_course_changed(*old(self), *self, i as int);
        }
        match step {
            Err(e) => {
                assert(self@ == old(self)@);
                Err(e)
            },
            Ok(_) => {
                proof {
                    lemma_propose_wf(old(self)@, *caller, course_id@);
                    self@.lemma_course_at(i as int);
                }
                Ok(self.courses[i].clone())
            },
        }
    }

    /// A student votes for the course `course_id`.
    pub fn vote_for_course(&mut self, caller: &Principal, course_id: &String) -> (r: Result<
        Course,
        ServiceError,
    >)
        requires
            old(self).wf(),
        ensures
            final(self).wf(),
            match old(self)@.vote_for_course(*caller, course_id@) {
                Ok(next) => final(self)@ == next && r is Ok && r->Ok_0@ == next.course(course_id@)
                    && r->Ok_0.wf(),
                Err(e) => final(self)@ == old(self)@ && r == Err::<Course, ServiceError>(e),
            },
    {
        match require_role(&self.roles, caller, Role::Student) {
            Err(e) => {
                return Err(e);
            },
            Ok(_) => {},
        }
        let i = match self.course_position(course_id) {
            Some(i) => i,
            None => {
                return Err(ServiceError::NotFound);
            },
        };
        let step = self.courses[i].vote(caller);
        proof {
            University::lemma_course_changed(*old(self), *self, i as int);
        }
        match step {
            Err(e) => {
                assert(self@ == old(self)@);
                Err(e)
            },
            Ok(_) => {
                proof {
                    lemma_vote_wf(old(self)@, *caller, course_id@);
                    self@.lemma_course_at(i as int);
                }
                Ok(self.courses[i].clone())
            },
        }
    }

    /// An admin approves the course `course_id`.
    pub fn approve_course(&mut self, caller: &Principal, course_id: &String) -> (r: Result<
        Course,
        ServiceError,
    >)
        requires
            old(self).wf(),
        ensures
            final(self).wf(),
            match old(self)@.approve_course(*caller, course_id@) {
                Ok(next) => final(self)@ == next && r is Ok && r->Ok_0@ == next.course(course_id@)
                    && r->Ok_0.wf(),
                Err(e) => final(self)@ == old(self)@ && r == Err::<Course, ServiceError>(e),
            },
    {
        match require_role(&self.roles, caller, Role::Admin) {
            Err(e) => {
                return Err(e);
            },
            Ok(_) => {},
        }
        let i = match self.course_position(course_id) {
            Some(i) => i,
            None => {
                return Err(ServiceError::NotFound);
            },
        };
        let step = self.courses[i].approve();
        proof {
            University::lemma_course_changed(*old(self), *self, i as int);
        }
        match step {
            Err(e) => {
                assert(self@ == old(self)@);
                Err(e)
            },
            Ok(_) => {
                proof {
                    lemma_approve_wf(old(self)@, *caller, course_id@);
                    self@.lemma_course_at(i as int);
                }
                Ok(self.courses[i].clone())
            },
        }
    }

    /// An admin rejects the course `course_id`.
    pub fn reject_course(&mut self, caller: &Principal, course_id: &String) -> (r: Result<
        Course,
        ServiceError,
    >)
        requires
            old(self).wf(),
        ensures
            final(self).wf(),
            match old(self)@.reject_course(*caller, course_id@) {
                Ok(next) => final(self)@ == next && r is Ok && r->Ok_0@ == next.course(course_id@)
                    && r->Ok_0.wf(),
                Err(e) => final(self)@ == old(self)@ && r == Err::<Course, ServiceError>(e),
            },
    {
        match require_role(&self.roles, caller, Role::Admin) {
            Err(e) => {
                return Err(e);
            },
            Ok(_) => {},
        }
        let i = match self.course_position(course_id) {
            Some(i) => i,
            None => {
                return Err(ServiceError::NotFound);
            },
        };
        let step = self.courses[i].reject();
        proof {
            University::lemma_course_changed(*old(self), *self, i as int);
        }
        match step {
            Err(e) => {
                assert(self@ == old(self)@);
                Err(e)
            },
            Ok(_) => {
                proof {
                    lemma_reject_wf(old(self)@, *caller, course_id@);
                    self@.lemma_course_at(i as int);
                }
                Ok(self.courses[i].clone())
            },
        }
    }

    /// A student enrolls in the approved course `course_id`. The course
    /// records the student, and the student's list gains the course.
    pub fn enroll_in_course(&mut self, caller: &Principal, course_id: &String) -> (r: Result<
        Course,
        ServiceError,
    >)
        requires
            old(self).wf(),
        ensures
            final(self).wf(),
            match old(self)@.enroll_in_course(*caller, course_id@) {
                Ok(next) => final(self)@ == next && r is Ok && r->Ok_0@ == next.course(course_id@)
                    && r->Ok_0.wf(),
                Err(e) => final(self)@ == old(self)@ && r == Err::<Course, ServiceError>(e),
            },
    {
        match require_role(&self.roles, caller, Role::Student) {
            Err(e) => {
                return Err(e);
            },
            Ok(_) => {},
        }
        let i = match self.course_position(course_id) {
            Some(i) => i,
            None => {
                return Err(ServiceError::NotFound);
            },
        };
        let step = self.courses[i].enroll(caller);
        proof {
            University::lemma_course_changed(*old(self), *self, i as int);
        }
        match step {
            Err(e) => {
                assert(self@ == old(self)@);
                Err(e)
            },
            Ok(_) => {
                self.record_enrollment(caller, course_id);
                proof {
                    lemma_enroll_wf(old(self)@, *caller, course_id@);
                    self@.lemma_course_at(i as int);
                }
                Ok(self.courses[i].clone())
            },
        }
    }
}

} // verus!
