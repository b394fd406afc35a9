use candid::Principal;
use duniversity_backend::{Course, CourseStatus, Role, ServiceError, University};

fn who(tag: u8) -> Principal {
    Principal::from_slice(&[tag, 0x20, 0x30])
}

const DEPLOYER: u8 = 1;
const ADMIN: u8 = 2;
const PROFESSOR: u8 = 3;
const OTHER_PROFESSOR: u8 = 4;
const S1: u8 = 5;
const S2: u8 = 6;

fn campus() -> University {
    let mut university = University::init(who(DEPLOYER));
    assert_eq!(university.login_as_role(&who(ADMIN), Role::Admin), Ok(Role::Admin));
    assert_eq!(university.login_as_role(&who(PROFESSOR), Role::Professor), Ok(Role::Professor));
    assert_eq!(
        university.login_as_role(&who(OTHER_PROFESSOR), Role::Professor),
        Ok(Role::Professor)
    );
    assert_eq!(university.login_as_role(&who(S1), Role::Student), Ok(Role::Student));
    assert_eq!(university.login_as_role(&who(S2), Role::Student), Ok(Role::Student));
    university
}

fn draft(university: &mut University, clock: u64) -> String {
    university
        .create_course(&who(PROFESSOR), clock, "Algebra".to_string(), "Groups and rings".to_string())
        .unwrap()
        .id
}

fn approved(university: &mut University, clock: u64) -> String {
    let id = draft(university, clock);
    university.propose_course(&who(PROFESSOR), &id).unwrap();
    university.approve_course(&who(ADMIN), &id).unwrap();
    id
}

fn stored(university: &University, id: &String) -> Course {
    university.get_course_details(id).unwrap()
}

#[test]
fn course_goes_from_draft_to_enrollment() {
    let mut university = campus();

    let created = university
        .create_course(&who(PROFESSOR), 7, "Algebra".to_string(), "Groups and rings".to_string())
        .unwrap();
    assert_eq!(created.status, CourseStatus::Draft);
    assert_eq!(created.professor_id, who(PROFESSOR));
    let id = created.id.clone();

    let proposed = university.propose_course(&who(PROFESSOR), &id).unwrap();
    assert_eq!(proposed.status, CourseStatus::Proposed);

    let voted = university.vote_for_course(&who(S1), &id).unwrap();
    assert_eq!(voted.status, CourseStatus::Voting);
    assert_eq!(voted.vote_count, 1);
    assert_eq!(voted.voters, vec![who(S1)]);

    let voted = university.vote_for_course(&who(S2), &id).unwrap();
    assert_eq!(voted.status, CourseStatus::Voting);
    assert_eq!(voted.vote_count, 2);
    assert_eq!(voted.voters, vec![who(S1), who(S2)]);

    let approved = university.approve_course(&who(ADMIN), &id).unwrap();
    assert_eq!(approved.status, CourseStatus::Approved);
    assert_eq!(approved.vote_count, 2);

    let enrolled = university.enroll_in_course(&who(S1), &id).unwrap();
    assert_eq!(enrolled.status, CourseStatus::Approved);
    assert_eq!(enrolled.enrolled_students, vec![who(S1)]);

    assert_eq!(university.enroll_in_course(&who(S1), &id).unwrap_err(), ServiceError::Conflict);
    let after = stored(&university, &id);
    assert_eq!(after.enrolled_students, vec![who(S1)]);
    assert_eq!(after.status, CourseStatus::Approved);
    assert_eq!(after.vote_count, 2);
    assert_eq!(after.title, "Algebra");
    assert_eq!(after.description, "Groups and rings");
    assert_eq!(after.created_at, 7);
    assert_eq!(after.professor_id, who(PROFESSOR));
}

#[test]
fn approved_course_cannot_be_rejected() {
    let mut university = campus();
    let id = approved(&mut university, 1);
    assert_eq!(university.reject_course(&who(ADMIN), &id).unwrap_err(), ServiceError::InvalidState);
    assert_eq!(stored(&university, &id).status, CourseStatus::Approved);
}

#[test]
fn draft_cannot_be_approved() {
    let mut university = campus();
    let id = draft(&mut university, 1);
    assert_eq!(university.approve_course(&who(ADMIN), &id).unwrap_err(), ServiceError::InvalidState);
    assert_eq!(stored(&university, &id).status, CourseStatus::Draft);
}

#[test]
fn approval_needs_proposed_or_voting() {
    let mut university = campus();
    let from_proposed = draft(&mut university, 1);
    university.propose_course(&who(PROFESSOR), &from_proposed).unwrap();
    assert_eq!(
        university.approve_course(&who(ADMIN), &from_proposed).unwrap().status,
        CourseStatus::Approved
    );
    assert_eq!(
        university.approve_course(&who(ADMIN), &from_proposed).unwrap_err(),
        ServiceError::InvalidState
    );

    let from_voting = draft(&mut university, 2);
    university.propose_course(&who(PROFESSOR), &from_voting).unwrap();
    university.vote_for_course(&who(S1), &from_voting).unwrap();
    assert_eq!(
        university.approve_course(&who(ADMIN), &from_voting).unwrap().status,
        CourseStatus::Approved
    );

    let rejected = draft(&mut university, 3);
    university.reject_course(&who(ADMIN), &rejected).unwrap();
    assert_eq!(
        university.approve_course(&who(ADMIN), &rejected).unwrap_err(),
        ServiceError::InvalidState
    );
    assert_eq!(stored(&university, &rejected).status, CourseStatus::Rejected);
}

#[test]
fn only_an_admin_approves_or_rejects() {
    let mut university = campus();
    let id = draft(&mut university, 1);
    university.propose_course(&who(PROFESSOR), &id).unwrap();
    for tag in [DEPLOYER, PROFESSOR, S1, 99] {
        assert_eq!(
            university.approve_course(&who(tag), &id).unwrap_err(),
            ServiceError::Unauthorized
        );
        assert_eq!(
            university.reject_course(&who(tag), &id).unwrap_err(),
            ServiceError::Unauthorized
        );
    }
    assert_eq!(stored(&university, &id).status, CourseStatus::Proposed);
}

#[test]
fn only_the_owner_proposes() {
    let mut university = campus();
    let id = draft(&mut university, 1);
    assert_eq!(
        university.propose_course(&who(OTHER_PROFESSOR), &id).unwrap_err(),
        ServiceError::Unauthorized
    );
    assert_eq!(
        university.propose_course(&who(ADMIN), &id).unwrap_err(),
        ServiceError::Unauthorized
    );
    assert_eq!(university.propose_course(&who(S1), &id).unwrap_err(), ServiceError::Unauthorized);
    assert_eq!(stored(&university, &id).status, CourseStatus::Draft);
    assert_eq!(
        university.propose_course(&who(PROFESSOR), &id).unwrap().status,
        CourseStatus::Proposed
    );
}

#[test]
fn owner_who_is_no_longer_professor_cannot_propose() {
    let mut university = campus();
    let id = draft(&mut university, 1);
    university.assign_role(&who(ADMIN), who(PROFESSOR), Role::Student).unwrap();
    assert_eq!(
        university.propose_course(&who(PROFESSOR), &id).unwrap_err(),
        ServiceError::Unauthorized
    );
}

#[test]
fn propose_needs_a_draft() {
    let mut university = campus();
    let id = draft(&mut university, 1);
    university.propose_course(&who(PROFESSOR), &id).unwrap();
    assert_eq!(
        university.propose_course(&who(PROFESSOR), &id).unwrap_err(),
        ServiceError::InvalidState
    );
    assert_eq!(stored(&university, &id).status, CourseStatus::Proposed);
    // Ownership is looked at before the status.
    assert_eq!(
        university.propose_course(&who(OTHER_PROFESSOR), &id).unwrap_err(),
        ServiceError::Unauthorized
    );
}

#[test]
fn missing_course_is_not_found() {
    let mut university = campus();
    let id = "course-404".to_string();
    assert_eq!(university.propose_course(&who(PROFESSOR), &id).unwrap_err(), ServiceError::NotFound);
    assert_eq!(university.vote_for_course(&who(S1), &id).unwrap_err(), ServiceError::NotFound);
    assert_eq!(university.approve_course(&who(ADMIN), &id).unwrap_err(), ServiceError::NotFound);
    assert_eq!(university.reject_course(&who(ADMIN), &id).unwrap_err(), ServiceError::NotFound);
    assert_eq!(university.enroll_in_course(&who(S1), &id).unwrap_err(), ServiceError::NotFound);
    // The role is checked before the lookup.
    assert_eq!(university.vote_for_course(&who(ADMIN), &id).unwrap_err(), ServiceError::Unauthorized);
    assert_eq!(university.approve_course(&who(S1), &id).unwrap_err(), ServiceError::Unauthorized);
}

#[test]
fn first_vote_starts_voting_and_later_votes_keep_it() {
    let mut university = campus();
    let id = draft(&mut university, 1);
    university.propose_course(&who(PROFESSOR), &id).unwrap();
    assert_eq!(university.vote_for_course(&who(S1), &id).unwrap().status, CourseStatus::Voting);
    assert_eq!(university.vote_for_course(&who(S2), &id).unwrap().status, CourseStatus::Voting);
    assert_eq!(stored(&university, &id).vote_count, 2);
}

#[test]
fn repeated_vote_is_a_conflict_and_changes_nothing() {
    let mut university = campus();
    let id = draft(&mut university, 1);
    university.propose_course(&who(PROFESSOR), &id).unwrap();
    university.vote_for_course(&who(S1), &id).unwrap();
    for _ in 0..3 {
        assert_eq!(university.vote_for_course(&who(S1), &id).unwrap_err(), ServiceError::Conflict);
        let course = stored(&university, &id);
        assert_eq!(course.vote_count, 1);
        assert_eq!(course.voters, vec![who(S1)]);
        assert_eq!(course.status, CourseStatus::Voting);
    }
    assert_eq!(university.get_course_voters(&id), vec![who(S1)]);
}

#[test]
fn vote_count_follows_the_voters() {
    let mut university = campus();
    let id = draft(&mut university, 1);
    university.propose_course(&who(PROFESSOR), &id).unwrap();
    for tag in 10..30u8 {
        university.login_as_role(&who(tag), Role::Student).unwrap();
        let course = university.vote_for_course(&who(tag), &id).unwrap();
        assert_eq!(course.vote_count as usize, course.voters.len());
        assert_eq!(course.vote_count, (tag - 9) as u64);
        assert_eq!(university.vote_for_course(&who(tag), &id).unwrap_err(), ServiceError::Conflict);
        assert_eq!(stored(&university, &id).vote_count, (tag - 9) as u64);
    }
    assert_eq!(university.get_course_voters(&id).len(), 20);
}

#[test]
fn voting_is_closed_outside_proposed_and_voting() {
    let mut university = campus();
    let id = draft(&mut university, 1);
    assert_eq!(university.vote_for_course(&who(S1), &id).unwrap_err(), ServiceError::InvalidState);
    university.propose_course(&who(PROFESSOR), &id).unwrap();
    university.vote_for_course(&who(S1), &id).unwrap();
    university.approve_course(&who(ADMIN), &id).unwrap();
    assert_eq!(university.vote_for_course(&who(S2), &id).unwrap_err(), ServiceError::InvalidState);
    // The status is looked at before the earlier vote.
    assert_eq!(university.vote_for_course(&who(S1), &id).unwrap_err(), ServiceError::InvalidState);
    assert_eq!(stored(&university, &id).vote_count, 1);

    let rejected = draft(&mut university, 2);
    university.reject_course(&who(ADMIN), &rejected).unwrap();
    assert_eq!(
        university.vote_for_course(&who(S1), &rejected).unwrap_err(),
        ServiceError::InvalidState
    );
}

#[test]
fn only_students_vote_and_enroll() {
    let mut university = campus();
    let id = approved(&mut university, 1);
    let open = draft(&mut university, 2);
    university.propose_course(&who(PROFESSOR), &open).unwrap();
    for tag in [DEPLOYER, ADMIN, PROFESSOR, 99] {
        assert_eq!(
            university.vote_for_course(&who(tag), &open).unwrap_err(),
            ServiceError::Unauthorized
        );
        assert_eq!(
            university.enroll_in_course(&who(tag), &id).unwrap_err(),
            ServiceError::Unauthorized
        );
        assert_eq!(
            university.get_my_enrolled_courses(&who(tag)).unwrap_err(),
            ServiceError::Unauthorized
        );
    }
    assert_eq!(stored(&university, &open).vote_count, 0);
    assert!(stored(&university, &id).enrolled_students.is_empty());
}

#[test]
fn rejection_is_possible_before_approval() {
    let mut university = campus();
    let from_draft = draft(&mut university, 1);
    assert_eq!(
        university.reject_course(&who(ADMIN), &from_draft).unwrap().status,
        CourseStatus::Rejected
    );
    let from_proposed = draft(&mut university, 2);
    university.propose_course(&who(PROFESSOR), &from_proposed).unwrap();
    assert_eq!(
        university.reject_course(&who(ADMIN), &from_proposed).unwrap().status,
        CourseStatus::Rejected
    );
    let from_voting = draft(&mut university, 3);
    university.propose_course(&who(PROFESSOR), &from_voting).unwrap();
    university.vote_for_course(&who(S1), &from_voting).unwrap();
    let rejected = university.reject_course(&who(ADMIN), &from_voting).unwrap();
    assert_eq!(rejected.status, CourseStatus::Rejected);
    assert_eq!(rejected.vote_count, 1);
    assert_eq!(rejected.voters, vec![who(S1)]);
}

#[test]
fn rejected_course_is_final() {
    let mut university = campus();
    let id = draft(&mut university, 1);
    university.propose_course(&who(PROFESSOR), &id).unwrap();
    university.vote_for_course(&who(S1), &id).unwrap();
    university.reject_course(&who(ADMIN), &id).unwrap();
    assert_eq!(university.reject_course(&who(ADMIN), &id).unwrap_err(), ServiceError::InvalidState);
    assert_eq!(university.approve_course(&who(ADMIN), &id).unwrap_err(), ServiceError::InvalidState);
    assert_eq!(
        university.propose_course(&who(PROFESSOR), &id).unwrap_err(),
        ServiceError::InvalidState
    );
    assert_eq!(university.vote_for_course(&who(S2), &id).unwrap_err(), ServiceError::InvalidState);
    assert_eq!(university.enroll_in_course(&who(S1), &id).unwrap_err(), ServiceError::InvalidState);
    let course = stored(&university, &id);
    assert_eq!(course.status, CourseStatus::Rejected);
    assert_eq!(course.vote_count, 1);
    assert!(course.enrolled_students.is_empty());
}

#[test]
fn enrollment_needs_an_approved_course() {
    let mut university = campus();
    let id = draft(&mut university, 1);
    assert_eq!(university.enroll_in_course(&who(S1), &id).unwrap_err(), ServiceError::InvalidState);
    university.propose_course(&who(PROFESSOR), &id).unwrap();
    assert_eq!(university.enroll_in_course(&who(S1), &id).unwrap_err(), ServiceError::InvalidState);
    university.vote_for_course(&who(S1), &id).unwrap();
    assert_eq!(university.enroll_in_course(&who(S1), &id).unwrap_err(), ServiceError::InvalidState);
    assert!(university.get_my_enrolled_courses(&who(S1)).unwrap().is_empty());
    university.approve_course(&who(ADMIN), &id).unwrap();
    assert_eq!(
        university.enroll_in_course(&who(S1), &id).unwrap().enrolled_students,
        vec![who(S1)]
    );

    let rejected = draft(&mut university, 2);
    university.reject_course(&who(ADMIN), &rejected).unwrap();
    assert_eq!(
        university.enroll_in_course(&who(S1), &rejected).unwrap_err(),
        ServiceError::InvalidState
    );
    assert!(stored(&university, &rejected).enrolled_students.is_empty());
}

#[test]
fn second_enrollment_is_a_conflict_and_changes_nothing() {
    let mut university = campus();
    let id = approved(&mut university, 1);
    university.enroll_in_course(&who(S1), &id).unwrap();
    university.enroll_in_course(&who(S2), &id).unwrap();
    assert_eq!(university.enroll_in_course(&who(S1), &id).unwrap_err(), ServiceError::Conflict);
    assert_eq!(stored(&university, &id).enrolled_students, vec![who(S1), who(S2)]);
    let mine = university.get_my_enrolled_courses(&who(S1)).unwrap();
    assert_eq!(mine.len(), 1);
    assert_eq!(mine[0].id, id);
}

#[test]
fn enrolled_courses_come_in_order_of_enrollment() {
    let mut university = campus();
    let first = approved(&mut university, 30);
    let second = approved(&mut university, 10);
    let third = approved(&mut university, 20);
    university.enroll_in_course(&who(S1), &third).unwrap();
    university.enroll_in_course(&who(S1), &first).unwrap();
    university.enroll_in_course(&who(S2), &second).unwrap();
    university.enroll_in_course(&who(S1), &second).unwrap();
    let mine: Vec<String> =
        university.get_my_enrolled_courses(&who(S1)).unwrap().into_iter().map(|c| c.id).collect();
    assert_eq!(mine, vec![third.clone(), first.clone(), second.clone()]);
    let theirs = university.get_my_enrolled_courses(&who(S2)).unwrap();
    assert_eq!(theirs.len(), 1);
    assert_eq!(theirs[0].id, second);
    assert_eq!(theirs[0].enrolled_students, vec![who(S2), who(S1)]);
    // Each listed course has the student enrolled, and each course that has
    // the student enrolled is listed.
    for tag in [S1, S2] {
        let listed = university.get_my_enrolled_courses(&who(tag)).unwrap();
        for id in [&first, &second, &third] {
            let course = stored(&university, id);
            assert_eq!(
                course.enrolled_students.contains(&who(tag)),
                listed.iter().filter(|c| &c.id == id).count() == 1
            );
        }
    }
}

#[test]
fn returned_course_is_the_stored_course() {
    let mut university = campus();
    let id = draft(&mut university, 1);
    let proposed = university.propose_course(&who(PROFESSOR), &id).unwrap();
    let kept = stored(&university, &id);
    assert_eq!(proposed.id, kept.id);
    assert_eq!(proposed.status, kept.status);
    assert_eq!(proposed.voters, kept.voters);
    // A returned course is a copy: changing it changes nothing in the service.
    let mut copy = university.vote_for_course(&who(S1), &id).unwrap();
    copy.status = CourseStatus::Archived;
    copy.voters.clear();
    assert_eq!(stored(&university, &id).status, CourseStatus::Voting);
    assert_eq!(stored(&university, &id).voters, vec![who(S1)]);
}

#[test]
fn steps_on_one_course_leave_the_others_alone() {
    let mut university = campus();
    let a = draft(&mut university, 1);
    let b = draft(&mut university, 2);
    university.propose_course(&who(PROFESSOR), &b).unwrap();
    university.vote_for_course(&who(S1), &b).unwrap();
    university.approve_course(&who(ADMIN), &b).unwrap();
    university.enroll_in_course(&who(S1), &b).unwrap();
    let untouched = stored(&university, &a);
    assert_eq!(untouched.status, CourseStatus::Draft);
    assert_eq!(untouched.vote_count, 0);
    assert!(untouched.voters.is_empty());
    assert!(untouched.enrolled_students.is_empty());
}
