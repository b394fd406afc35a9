//! The state of the service.
//!
//! A `University` owns all of it: the role bindings, the deployer, the
//! profiles, the courses and the enrollment lists. There is one store for each
//! and no copy of any, so what a course says of its students and what a
//! student's list says of its courses cannot drift apart.

use crate::course::{Course, CourseView};
use crate::model::UniversityView;
use crate::preservation::lemma_init_wf;
use crate::principal_map::PrincipalMap;
use crate::profile::UserProfile;
use crate::role::Role;
use candid::Principal;
use vstd::prelude::*;

verus! {

/// The service: all of its state, behind the operations that keep it in order.
pub struct University {
    pub(crate) roles: PrincipalMap<Role>,
    pub(crate) deployer: Option<Principal>,
    pub(crate) profiles: PrincipalMap<UserProfile>,
    pub(crate) courses: Vec<Course>,
    pub(crate) enrollments: PrincipalMap<Vec<String>>,
}

/// The characters of each text.
pub open spec fn text_views(texts: Seq<String>) -> Seq<Seq<char>> {
    texts.map_values(|text: String| text@)
}

/// Each course as a mathematical value.
pub open spec fn course_views(courses: Seq<Course>) -> Seq<CourseView> {
    courses.map_values(|course: Course| course@)
}

impl University {
    /// What the state stands for.
    pub open(crate) spec fn view(&self) -> UniversityView {
        UniversityView {
            roles: self.roles@,
            deployer: self.deployer,
            profiles: Map::new(
                |p: Principal| self.profiles@.contains_key(p),
                |p: Principal| self.profiles@[p]@,
            ),
            courses: course_views(self.courses@),
            enrollments: Map::new(
                |p: Principal| self.enrollments@.contains_key(p),
                |p: Principal| text_views(self.enrollments@[p]@),
            ),
        }
    }

    /// The stores are in order and the invariant of the service holds. Every
    /// state that `init` and the operations produce is well-formed.
    pub open(crate) spec fn wf(&self) -> bool {
        &&& self.roles.wf()
        &&& self.profiles.wf()
        &&& self.enrollments.wf()
        &&& self@.wf()
    }

    /// A well-formed state stands for a state in which the invariant holds.
    pub proof fn lemma_wf_view(&self)
        requires
            self.wf(),
        ensures
            self@.wf(),
    {
    }

    /// Starts the service: `deployer` becomes a developer and is recorded as
    /// the deployer. This is the only way to make a `University`, so it happens
    /// once for each.
    pub fn init(deployer: Principal) -> (state: University)
        ensures
            state.wf(),
            state@ == UniversityView::init(deployer),
    {
        let mut roles: PrincipalMap<Role> = PrincipalMap::new();
        roles.insert(deployer, Role::Developer);
        let state = University {
            roles,
            deployer: Some(deployer),
            profiles: PrincipalMap::new(),
            courses: Vec::new(),
            enrollments: PrincipalMap::new(),
        };
        proof {
            lemma_init_wf(deployer);
        }
        state
    }

    /// Where the course with identifier `id` sits, if there is one.
    pub(crate) fn course_position(&self, id: &String) -> (r: Option<usize>)
        requires
            self.wf(),
        ensures
            match r {
                Some(i) => {
                    &&& i < self.courses@.len()
                    &&& self@.has_course(id@)
                    &&& self@.course_index(id@) == i
                    &&& self@.course(id@) == self.courses@[i as int]@
                },
                None => !self@.has_course(id@),
            },
    {
        let mut i: usize = 0;
        while i < self.courses.len()
            invariant
                self.wf(),
                i <= self.courses.len(),
                forall|j: int| 0 <= j < i ==> (#[trigger] self@.courses[j]).id != id@,
            decreases self.courses.len() - i,
        {
            if self.courses[i].id == *id {
                proof {
                    self@.lemma_course_at(i as int);
                }
                return Some(i);
            }
            i += 1;
        }
        None
    }

    /// How the state reads after the course at position `i` alone has changed.
    pub(crate) proof fn lemma_course_changed(before: University, after: University, i: int)
        requires
            0 <= i < before.courses@.len(),
            after.courses@ == before.courses@.update(i, after.courses@[i]),
            after.roles == before.roles,
            after.deployer == before.deployer,
            after.profiles == before.profiles,
            after.enrollments == before.enrollments,
        ensures
            after@ == before@.with_course(i, after.courses@[i]@),
    {
    }
}

} // verus!
