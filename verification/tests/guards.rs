use candid::Principal;
use duniversity_backend::principal::{copy_principals, is_anonymous_principal, principal_in};
use duniversity_backend::{CourseStatus, Role, ServiceError, UserProfile, University};

fn who(tag: u8) -> Principal {
    Principal::from_slice(&[tag, 0x10])
}

fn staffed() -> University {
    let mut university = University::init(who(1));
    assert_eq!(university.login_as_role(&who(2), Role::Admin), Ok(Role::Admin));
    assert_eq!(university.login_as_role(&who(3), Role::Professor), Ok(Role::Professor));
    assert_eq!(university.login_as_role(&who(4), Role::Student), Ok(Role::Student));
    assert_eq!(university.login_as_role(&who(5), Role::Guest), Ok(Role::Guest));
    university
}

#[test]
fn anonymous_principal_is_recognised() {
    assert!(is_anonymous_principal(&Principal::anonymous()));
    assert!(is_anonymous_principal(&Principal::from_slice(&[4])));
    assert!(!is_anonymous_principal(&Principal::from_slice(&[4, 0])));
    assert!(!is_anonymous_principal(&Principal::from_slice(&[])));
    assert!(!is_anonymous_principal(&Principal::from_slice(&[5])));
    assert!(!is_anonymous_principal(&Principal::management_canister()));
    assert!(!is_anonymous_principal(&Principal::from_slice(&[4; 29])));
}

#[test]
fn principals_are_compared_by_their_bytes() {
    let list = vec![Principal::from_slice(&[1, 2, 3])];
    assert!(principal_in(&list, &Principal::from_slice(&[1, 2, 3])));
    assert!(!principal_in(&list, &Principal::from_slice(&[1, 2])));
    assert!(!principal_in(&list, &Principal::from_slice(&[1, 2, 3, 0])));
    assert!(!principal_in(&list, &Principal::from_slice(&[1, 2, 4])));
    assert!(!principal_in(&list, &Principal::from_slice(&[])));
    let empty = vec![Principal::from_slice(&[])];
    assert!(principal_in(&empty, &Principal::management_canister()));
    assert!(!principal_in(&empty, &Principal::from_slice(&[0])));
}

#[test]
fn principal_lists_are_searched_and_copied() {
    let list = vec![who(1), who(2), who(3)];
    assert!(principal_in(&list, &who(1)));
    assert!(principal_in(&list, &who(3)));
    assert!(!principal_in(&list, &who(4)));
    assert!(!principal_in(&Vec::new(), &who(1)));
    assert_eq!(copy_principals(&list), list);
    assert_eq!(copy_principals(&Vec::new()), Vec::<Principal>::new());
}

#[test]
fn require_role_asks_for_the_exact_role() {
    let university = staffed();
    assert_eq!(university.require_admin(&who(2)), Ok(()));
    assert_eq!(university.require_professor(&who(3)), Ok(()));
    assert_eq!(university.require_student(&who(4)), Ok(()));
    // An admin is not thereby a professor or a student, nor a developer an admin.
    assert_eq!(university.require_professor(&who(2)), Err(ServiceError::Unauthorized));
    assert_eq!(university.require_student(&who(2)), Err(ServiceError::Unauthorized));
    assert_eq!(university.require_admin(&who(1)), Err(ServiceError::Unauthorized));
    assert_eq!(university.require_admin(&who(3)), Err(ServiceError::Unauthorized));
    assert_eq!(university.require_admin(&who(4)), Err(ServiceError::Unauthorized));
    assert_eq!(university.require_admin(&who(5)), Err(ServiceError::Unauthorized));
    assert_eq!(university.require_admin(&who(6)), Err(ServiceError::Unauthorized));
}

#[test]
fn require_developer_or_admin_accepts_both() {
    let university = staffed();
    assert_eq!(university.require_developer_or_admin(&who(1)), Ok(()));
    assert_eq!(university.require_developer_or_admin(&who(2)), Ok(()));
    assert_eq!(university.require_developer_or_admin(&who(3)), Err(ServiceError::Unauthorized));
    assert_eq!(university.require_developer_or_admin(&who(4)), Err(ServiceError::Unauthorized));
    assert_eq!(university.require_developer_or_admin(&who(5)), Err(ServiceError::Unauthorized));
    assert_eq!(university.require_developer_or_admin(&who(6)), Err(ServiceError::Unauthorized));
    assert_eq!(
        university.require_developer_or_admin(&Principal::anonymous()),
        Err(ServiceError::Unauthenticated)
    );
}

#[test]
fn require_registered_user_tells_guest_from_unbound() {
    let university = staffed();
    for tag in 1..=5u8 {
        assert_eq!(university.require_registered_user(&who(tag)), Ok(()));
    }
    assert_eq!(university.require_registered_user(&who(6)), Err(ServiceError::Unauthorized));
    assert_eq!(
        university.require_registered_user(&Principal::anonymous()),
        Err(ServiceError::Unauthenticated)
    );
}

#[test]
fn anonymous_is_unauthenticated_even_with_a_role_bound() {
    let mut university = staffed();
    let anonymous = Principal::anonymous();
    assert_eq!(university.assign_role(&who(2), anonymous, Role::Admin), Ok(()));
    assert_eq!(university.my_role(&anonymous), Role::Admin);
    assert_eq!(university.require_admin(&anonymous), Err(ServiceError::Unauthenticated));
    assert_eq!(university.require_registered_user(&anonymous), Err(ServiceError::Unauthenticated));
    assert_eq!(university.list_users(&anonymous), Err(ServiceError::Unauthenticated));
}

#[test]
fn anonymous_caller_fails_admin_operations_unauthenticated() {
    let mut university = staffed();
    let anonymous = Principal::anonymous();
    let course = university
        .create_course(&who(3), 100, "Logic".to_string(), "Proofs".to_string())
        .unwrap();
    assert_eq!(university.propose_course(&who(3), &course.id).unwrap().status, CourseStatus::Proposed);
    let principals_before = university.list_principals();

    assert_eq!(university.require_admin(&anonymous), Err(ServiceError::Unauthenticated));
    assert_eq!(
        university.approve_course(&anonymous, &course.id).unwrap_err(),
        ServiceError::Unauthenticated
    );
    assert_eq!(
        university.reject_course(&anonymous, &course.id).unwrap_err(),
        ServiceError::Unauthenticated
    );
    assert_eq!(university.list_users(&anonymous), Err(ServiceError::Unauthenticated));
    assert_eq!(
        university.assign_role(&anonymous, who(9), Role::Admin),
        Err(ServiceError::Unauthenticated)
    );
    // The identity is checked before the course is looked up.
    assert_eq!(
        university.approve_course(&anonymous, &"course-none".to_string()).unwrap_err(),
        ServiceError::Unauthenticated
    );
    assert_eq!(
        university.reject_course(&anonymous, &"course-none".to_string()).unwrap_err(),
        ServiceError::Unauthenticated
    );
    // Nothing has changed.
    assert_eq!(university.get_course_details(&course.id).unwrap().status, CourseStatus::Proposed);
    assert_eq!(university.list_principals(), principals_before);
    assert_eq!(university.my_role(&who(9)), Role::Guest);
}

#[test]
fn anonymous_caller_fails_every_guarded_operation() {
    let mut university = staffed();
    let anonymous = Principal::anonymous();
    let id = "course-1".to_string();
    assert_eq!(
        university.create_course(&anonymous, 1, "T".to_string(), "D".to_string()).unwrap_err(),
        ServiceError::Unauthenticated
    );
    assert_eq!(university.propose_course(&anonymous, &id).unwrap_err(), ServiceError::Unauthenticated);
    assert_eq!(university.vote_for_course(&anonymous, &id).unwrap_err(), ServiceError::Unauthenticated);
    assert_eq!(university.enroll_in_course(&anonymous, &id).unwrap_err(), ServiceError::Unauthenticated);
    assert_eq!(
        university.get_my_enrolled_courses(&anonymous).unwrap_err(),
        ServiceError::Unauthenticated
    );
    assert_eq!(university.get_my_profile(&anonymous).unwrap_err(), ServiceError::Unauthenticated);
    let profile = UserProfile {
        profile_id: anonymous,
        name: "nobody".to_string(),
        bio: None,
        contact_email: None,
        github_username: None,
    };
    assert_eq!(
        university.create_or_update_my_profile(&anonymous, profile),
        Err(ServiceError::Unauthenticated)
    );
    assert!(university.get_course_details(&id).is_none());
}
