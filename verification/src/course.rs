//! A course and its lifecycle.
//!
//! A course starts as a draft. Its professor proposes it, students vote on it,
//! an admin approves or rejects it, and students enroll once it is approved:
//!
//! ```text
//! Draft --propose--> Proposed --vote--> Voting --approve--> Approved
//!   \                   \                  \
//!    `----reject---------`-----reject-------`--> Rejected
//! ```
//!
//! A proposed course can be approved without a vote. `Rejected` and `Archived`
//! are final: no step leads out of them.
//!
//! Each step is a function on `CourseView` that gives either the course after
//! the step or the reason for refusing it; the methods of `Course` carry out
//! those steps and are proved against them.

use crate::error::ServiceError;
use crate::principal::{copy_principals, principal_eq, principal_in};
use candid::Principal;
use vstd::prelude::*;

verus! {

/// Where a course stands in its lifecycle.
#[derive(Clone, Copy, Debug, PartialEq, Eq, Hash, Structural)]
pub enum CourseStatus {
    /// Created by a professor, not yet proposed.
    Draft,
    /// Proposed by its professor, no vote cast yet.
    Proposed,
    /// At least one student has voted.
    Voting,
    /// Approved by an admin, open for enrollment.
    Approved,
    /// Rejected by an admin.
    Rejected,
    /// Kept for the record only. No operation leads here.
    Archived,
}

/// A course, as it is stored and as it is handed out.
#[derive(Debug)]
pub struct Course {
    pub id: String,
    pub title: String,
    pub description: String,
    /// The professor who created the course.
    pub professor_id: Principal,
    pub status: CourseStatus,
    pub created_at: u64,
    /// The number of votes cast, which is the length of `voters`.
    pub vote_count: u64,
    /// The students who voted, in the order of their votes, each once.
    pub voters: Vec<Principal>,
    /// The students who enrolled, in the order of enrollment, each once.
    pub enrolled_students: Vec<Principal>,
}

/// A course as a mathematical value.
pub struct CourseView {
    pub id: Seq<char>,
    pub title: Seq<char>,
    pub description: Seq<char>,
    pub professor_id: Principal,
    pub status: CourseStatus,
    pub created_at: u64,
    pub vote_count: nat,
    pub voters: Seq<Principal>,
    pub enrolled_students: Seq<Principal>,
}

impl CourseView {
    /// Nobody voted twice, nobody enrolled twice, and the vote count is the
    /// number of voters.
    pub open spec fn wf(self) -> bool {
        &&& self.voters.no_duplicates()
        &&& self.enrolled_students.no_duplicates()
        &&& self.vote_count == self.voters.len()
    }

    /// A fresh draft.
    pub open spec fn draft(
        id: Seq<char>,
        title: Seq<char>,
        description: Seq<char>,
        professor_id: Principal,
        created_at: u64,
    ) -> CourseView {
        CourseView {
            id,
            title,
            description,
            professor_id,
            status: CourseStatus::Draft,
            created_at,
            vote_count: 0,
            voters: Seq::empty(),
            enrolled_students: Seq::empty(),
        }
    }

    /// Whether votes can be cast, and approval given.
    pub open spec fn open_for_voting(self) -> bool {
        self.status == CourseStatus::Proposed || self.status == CourseStatus::Voting
    }

    /// `caller` proposes the course: only its own professor may, and only
    /// while it is a draft.
    pub open spec fn propose(self, caller: Principal) -> Result<CourseView, ServiceError> {
        if self.professor_id != caller {
            Err(ServiceError::Unauthorized)
        } else if self.status != CourseStatus::Draft {
            Err(ServiceError::InvalidState)
        } else {
            Ok(CourseView { status: CourseStatus::Proposed, ..self })
        }
    }

    /// `student` votes for the course: once, and only while it is proposed or
    /// in voting. The first vote moves the course to `Voting`.
    pub open spec fn vote(self, student: Principal) -> Result<CourseView, ServiceError> {
        if !self.open_for_voting() {
            Err(ServiceError::InvalidState)
        } else if self.voters.contains(student) {
            Err(ServiceError::Conflict)
        } else {
            Ok(
                CourseView {
                    status: CourseStatus::Voting,
                    vote_count: self.vote_count + 1,
                    voters: self.voters.push(student),
                    ..self
                },
            )
        }
    }

    /// The course is approved: only while it is proposed or in voting.
    pub open spec fn approve(self) -> Result<CourseView, ServiceError> {
        if !self.open_for_voting() {
            Err(ServiceError::InvalidState)
        } else {
            Ok(CourseView { status: CourseStatus::Approved, ..self })
        }
    }

    /// Whether the course is still undecided: a draft, proposed or in voting.
    pub open spec fn undecided(self) -> bool {
        self.status == CourseStatus::Draft || self.open_for_voting()
    }

    /// The course is rejected: only while it is undecided. An approved course
    /// cannot be rejected, and a rejected or archived one stays what it is.
    pub open spec fn reject(self) -> Result<CourseView, ServiceError> {
        if !self.undecided() {
            Err(ServiceError::InvalidState)
        } else {
            Ok(CourseView { status: CourseStatus::Rejected, ..self })
        }
    }

    /// `student` enrolls: once, and only in an approved course.
    pub open spec fn enroll(self, student: Principal) -> Result<CourseView, ServiceError> {
        if self.status != CourseStatus::Approved {
            Err(ServiceError::InvalidState)
        } else if self.enrolled_students.contains(student) {
            Err(ServiceError::Conflict)
        } else {
            Ok(CourseView { enrolled_students: self.enrolled_students.push(student), ..self })
        }
    }
}

impl View for Course {
    type V = CourseView;

    open spec fn view(&self) -> CourseView {
        CourseView {
            id: self.id@,
            title: self.title@,
            description: self.description@,
            professor_id: self.professor_id,
            status: self.status,
            created_at: self.created_at,
            vote_count: self.vote_count as nat,
            voters: self.voters@,
            enrolled_students: self.enrolled_students@,
        }
    }
}

impl Clone for Course {
    fn clone(&self) -> (copy: Course)
        ensures
            copy@ == self@,
    {
        Course {
            id: self.id.clone(),
            title: self.title.clone(),
            description: self.description.clone(),
            professor_id: self.professor_id,
            status: self.status,
            created_at: self.created_at,
            vote_count: self.vote_count,
            voters: copy_principals(&self.voters),
            enrolled_students: copy_principals(&self.enrolled_students),
        }
    }
}

impl Course {
    /// Nobody voted twice, nobody enrolled twice, and the vote count is the
    /// number of voters.
    pub open spec fn wf(&self) -> bool {
        self@.wf()
    }

    /// A fresh draft owned by `professor_id`.
    pub fn draft(
        id: String,
        title: String,
        description: String,
        professor_id: Principal,
        created_at: u64,
    ) -> (course: Course)
        ensures
            course@ == CourseView::draft(id@, title@, description@, professor_id, created_at),
            course.wf(),
    {
        Course {
            id,
            title,
            description,
            professor_id,
            status: CourseStatus::Draft,
            created_at,
            vote_count: 0,
            voters: Vec::new(),
            enrolled_students: Vec::new(),
        }
    }

    /// Whether votes can be cast, and approval given.
    pub fn open_for_voting(&self) -> (open: bool)
        ensures
            open == self@.open_for_voting(),
    {
        self.status == CourseStatus::Proposed || self.status == CourseStatus::Voting
    }

    /// `caller` proposes the course. On a refusal the course stays as it is.
    pub fn propose(&mut self, caller: &Principal) -> (r: Result<(), ServiceError>)
        ensures
            match old(self)@.propose(*caller) {
                Ok(next) => r is Ok && final(self)@ == next,
                Err(e) => r == Err::<(), ServiceError>(e) && final(self)@ == old(self)@,
            },
    {
        if !principal_eq(&self.professor_id, caller) {
            return Err(ServiceError::Unauthorized);
        }
        if self.status != CourseStatus::Draft {
            return Err(ServiceError::InvalidState);
        }
        self.status = CourseStatus::Proposed;
        Ok(())
    }

    /// `student` votes for the course. On a refusal the course stays as it is.
    pub fn vote(&mut self, student: &Principal) -> (r: Result<(), ServiceError>)
        requires
            old(self).wf(),
        ensures
            match old(self)@.vote(*student) {
                Ok(next) => r is Ok && final(self)@ == next,
                Err(e) => r == Err::<(), ServiceError>(e) && final(self)@ == old(self)@,
            },
            final(self).wf(),
    {
        if !self.open_for_voting() {
            return Err(ServiceError::InvalidState);
        }
        if principal_in(&self.voters, student) {
            return Err(ServiceError::Conflict);
        }
        self.voters.push(*student);
        assert(self.vote_count + 1 == self.voters.len() <= usize::MAX);
        self.vote_count = self.vote_count + 1;
        self.status = CourseStatus::Voting;
        Ok(())
    }

    /// Approves the course. On a refusal the course stays as it is.
    pub fn approve(&mut self) -> (r: Result<(), ServiceError>)
        ensures
            match old(self)@.approve() {
                Ok(next) => r is Ok && final(self)@ == next,
                Err(e) => r == Err::<(), ServiceError>(e) && final(self)@ == old(self)@,
            },
    {
        if !self.open_for_voting() {
            return Err(ServiceError::InvalidState);
        }
        self.status = CourseStatus::Approved;
        Ok(())
    }

    /// Rejects the course. On a refusal the course stays as it is.
    pub fn reject(&mut self) -> (r: Result<(), ServiceError>)
        ensures
            match old(self)@.reject() {
                Ok(next) => r is Ok && final(self)@ == next,
                Err(e) => r == Err::<(), ServiceError>(e) && final(self)@ == old(self)@,
            },
    {
        if !(self.status == CourseStatus::Draft || self.open_for_voting()) {
            return Err(ServiceError::InvalidState);
        }
        self.status = CourseStatus::Rejected;
        Ok(())
    }

    /// Enrolls `student` in the course. On a refusal the course stays as it is.
    pub fn enroll(&mut self, student: &Principal) -> (r: Result<(), ServiceError>)
        ensures
            match old(self)@.enroll(*student) {
                Ok(next) => r is Ok && final(self)@ == next,
                Err(e) => r == Err::<(), ServiceError>(e) && final(self)@ == old(self)@,
            },
    {
        if self.status != CourseStatus::Approved {
            return Err(ServiceError::InvalidState);
        }
        if principal_in(&self.enrolled_students, student) {
            return Err(ServiceError::Conflict);
        }
        self.enrolled_students.push(*student);
        Ok(())
    }
}

} // verus!
