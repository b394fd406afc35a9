//! The course registry: creating courses and reading them.
//!
//! A course gets its identifier from the host's clock when it is created: the
//! text `course-` and the clock value in decimal. Two courses never share an
//! identifier: a second course at the same clock value is refused, not written
//! over the first.

use crate::course::{Course, CourseStatus, CourseView};
use crate::error::ServiceError;
use crate::guard::{can_see, require_role};
use crate::model::{course_id_text, decimal_text, digit_char};
use crate::preservation::lemma_create_course_wf;
use crate::principal::copy_principals;
use crate::role::Role;
use crate::state::{course_views, University};
use candid::Principal;
use vstd::prelude::*;
use vstd::string::StringExecFns;

verus! {

/// The digit `d` as a text of one character.
fn digit_str(d: u8) -> (text: &'static str)
    requires
        d < 10,
    ensures
        text@ == seq![digit_char(d as nat)],
{
    proof {
        reveal_strlit("0");
        reveal_strlit("1");
        reveal_strlit("2");
        reveal_strlit("3");
        reveal_strlit("4");
        reveal_strlit("5");
        reveal_strlit("6");
        reveal_strlit("7");
        reveal_strlit("8");
        reveal_strlit("9");
    }
    match d {
        0 => "0",
        1 => "1",
        2 => "2",
        3 => "3",
        4 => "4",
        5 => "5",
        6 => "6",
        7 => "7",
        8 => "8",
        _ => "9",
    }
}

/// The digits `digits`, given from the least significant on, written from the
/// most significant on.
spec fn written(digits: Seq<u8>) -> Seq<char>
    decreases digits.len(),
{
    if digits.len() == 0 {
        Seq::empty()
    } else {
        written(digits.drop_first()).push(digit_char(digits[0] as nat))
    }
}

/// `n` in decimal, or nothing where `n` is zero: the digits that stand before
/// the last digit of a number.
spec fn leading(n: nat) -> Seq<char> {
    if n == 0 {
        Seq::empty()
    } else {
        decimal_text(n)
    }
}

/// A number in decimal is its last digit behind what stands before it.
proof fn lemma_last_digit(n: nat)
    ensures
        decimal_text(n) == leading(n / 10).push(digit_char(n % 10)),
{
}

/// A digit added behind the most significant one is written in front.
proof fn lemma_written_push(digits: Seq<u8>, d: u8)
    ensures
        written(digits.push(d)) == seq![digit_char(d as nat)] + written(digits),
    decreases digits.len(),
{
    if digits.len() == 0 {
        assert(written(digits.push(d).drop_first()) =~= Seq::<char>::empty());
    } else {
        lemma_written_push(digits.drop_first(), d);
        assert(digits.push(d).drop_first() =~= digits.drop_first().push(d));
    }
}

/// `n` in decimal, with no sign, padding or leading zero.
pub fn decimal_string(n: u64) -> (text: String)
    ensures
        text@ == decimal_text(n as nat),
{
    let mut digits: Vec<u8> = Vec::new();
    let mut rest: u64 = n / 10;
    digits.push((n % 10) as u8);
    proof {
        lemma_last_digit(n as nat);
        lemma_written_push(Seq::<u8>::empty(), (n % 10) as u8);
    }
    while rest > 0
        invariant
            forall|k: int| 0 <= k < digits@.len() ==> digits@[k] < 10,
            decimal_text(n as nat) == leading(rest as nat) + written(digits@),
        decreases rest,
    {
        let d: u8 = (rest % 10) as u8;
        proof {
            lemma_last_digit(rest as nat);
            lemma_written_push(digits@, d);
        }
        digits.push(d);
        rest = rest / 10;
    }
    let mut text = String::new();
    let mut i: usize = digits.len();
    while i > 0
        invariant
            i <= digits@.len(),
            forall|k: int| 0 <= k < digits@.len() ==> digits@[k] < 10,
            text@ == written(digits@.subrange(i as int, digits@.len() as int)),
        decreases i,
    {
        i -= 1;
        assert(digits@.subrange(i as int, digits@.len() as int).drop_first() =~= digits@.subrange(
            i + 1,
            digits@.len() as int,
        ));
        text.append(digit_str(digits[i]));
    }
    assert(digits@.subrange(0, digits@.len() as int) =~= digits@);
    text
}

/// The identifier of the course created at clock value `clock`.
pub fn course_id_for(clock: u64) -> (id: String)
    ensures
        id@ == course_id_text(clock),
{
    let mut id = String::from_str("course-");
    let digits = decimal_string(clock);
    id.append(digits.as_str());
    proof {
        reveal_strlit("course-");
    }
    id
}

impl University {
    /// A professor creates a course at clock value `clock`. The course starts
    /// as a draft owned by the caller, under the identifier
    /// `course_id_text(clock)`.
    pub fn create_course(
        &mut self,
        caller: &Principal,
        clock: u64,
        title: String,
        description: String,
    ) -> (r: Result<Course, ServiceError>)
        requires
            old(self).wf(),
        ensures
            final(self).wf(),
            match old(self)@.create_course(*caller, clock, title@, description@) {
                Ok(next) => final(self)@ == next && r is Ok && r->Ok_0@ == CourseView::draft(
                    course_id_text(clock),
                    title@,
                    description@,
                    *caller,
                    clock,
                ) && r->Ok_0.wf(),
                Err(e) => final(self)@ == old(self)@ && r == Err::<Course, ServiceError>(e),
            },
    {
        match require_role(&self.roles, caller, Role::Professor) {
            Err(e) => {
                return Err(e);
            },
            Ok(_) => {},
        }
        let id = course_id_for(clock);
        if self.course_position(&id).is_some() {
            return Err(ServiceError::Conflict);
        }
        let course = Course::draft(id, title, description, *caller, clock);
        let created = course.clone();
        self.courses.push(course);
        proof {
            let next = old(self)@.create_course(*caller, clock, title@, description@)->Ok_0;
            assert(self@.courses =~= next.courses);
            lemma_create_course_wf(old(self)@, *caller, clock, title@, description@);
        }
        Ok(created)
    }

    /// The course with identifier `course_id`, if there is one. Anyone may ask.
    pub fn get_course_details(&self, course_id: &String) -> (r: Option<Course>)
        requires
            self.wf(),
        ensures
            match self@.find_course(course_id@) {
                Some(course) => r is Some && r->Some_0@ == course && r->Some_0.wf(),
                None => r is None,
            },
    {
        match self.course_position(course_id) {
            Some(i) => Some(self.courses[i].clone()),
            None => None,
        }
    }

    /// The students who voted for the course `course_id`, in the order of their
    /// votes; nobody if there is no such course.
    pub fn get_course_voters(&self, course_id: &String) -> (voters: Vec<Principal>)
        requires
            self.wf(),
        ensures
            voters@ == if self@.has_course(course_id@) {
                self@.course(course_id@).voters
            } else {
                Seq::empty()
            },
    {
        match self.course_position(course_id) {
            Some(i) => copy_principals(&self.courses[i].voters),
            None => Vec::new(),
        }
    }

    /// The courses that `caller` gets to see, in order of creation; with a
    /// filter, only those in the given status.
    pub fn list_courses(&self, caller: &Principal, filter_status: Option<CourseStatus>) -> (listed:
        Vec<Course>)
        requires
            self.wf(),
        ensures
            course_views(listed@) == self@.listing(*caller, filter_status),
            forall|k: int| 0 <= k < listed@.len() ==> (#[trigger] listed@[k]).wf(),
    {
        let mut listed: Vec<Course> = Vec::new();
        let mut i: usize = 0;
        let ghost shown = self@.shows(*caller, filter_status);
        assert(course_views(listed@) =~= Seq::<CourseView>::empty().filter(shown)) by {
            reveal(Seq::filter);
        }
        while i < self.courses.len()
            invariant
                self.wf(),
                i <= self.courses.len(),
                shown == self@.shows(*caller, filter_status),
                course_views(listed@) == self@.courses.subrange(0, i as int).filter(shown),
                forall|k: int| 0 <= k < listed@.len() ==> (#[trigger] listed@[k]).wf(),
            decreases self.courses.len() - i,
        {
            let course = &self.courses[i];
            let matches_filter = match filter_status {
                Some(status) => course.status == status,
                None => true,
            };
            let ghost seen_so_far = self@.courses.subrange(0, i as int);
            proof {
                assert(self@.courses.subrange(0, i + 1) =~= seen_so_far.push(course@));
                seen_so_far.lemma_filter_push(course@, shown);
            }
            if matches_filter && can_see(&self.roles, caller, course) {
                assert(course@ == self@.courses[i as int] && self@.courses[i as int].wf());
                listed.push(course.clone());
            }
            i += 1;
        }
        assert(self@.courses.subrange(0, i as int) =~= self@.courses);
        listed
    }
}

} // verus!
