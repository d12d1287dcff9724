use rsmine::domain::{
    CurrentUser, Member, MemberWithRoles, Project, Role, RoleWithInheritance, User,
    PROJECT_STATUS_ARCHIVED, USER_STATUS_ACTIVE, USER_STATUS_LOCKED,
};
use rsmine::dto::{CreateMemberDto, UpdateMemberDto};
use rsmine::errors::ApplicationError;
use rsmine::domain::RoleAssignment;
use rsmine::use_cases::access::require_project;
use rsmine::use_cases::member::remove_member::RemovalStep;
use rsmine::use_cases::member::update_member::MemberRoleStep;
use rsmine::use_cases::member::{
    AddMemberUseCase, GetMemberUseCase, ListMembersUseCase, RemoveMemberUseCase,
    UpdateMemberUseCase,
};

fn person(id: i32, status: i32) -> User {
    User {
        id,
        login: format!("user{}", id),
        firstname: format!("First{}", id),
        lastname: format!("Last{}", id),
        admin: false,
        status,
        hashed_password: None,
        salt: None,
        created_on: None,
        updated_on: None,
        last_login_on: None,
        passwd_changed_on: None,
        twofa_scheme: None,
    }
}

fn role(id: i32, name: &str) -> Role {
    Role {
        id,
        name: name.to_string(),
    }
}

fn membership(id: i32, user_id: i32, inherited: Vec<Option<i32>>) -> MemberWithRoles {
    MemberWithRoles {
        member: Member {
            id,
            project_id: 1,
            user_id,
        },
        user: person(user_id, USER_STATUS_ACTIVE),
        roles: inherited
            .into_iter()
            .enumerate()
            .map(|(k, from)| RoleWithInheritance {
                role: role(k as i32 + 1, "Developer"),
                inherited_from: from,
            })
            .collect(),
    }
}

fn project(status: i32, is_public: bool) -> Project {
    Project {
        id: 1,
        name: "Test Project".to_string(),
        is_public,
        status,
    }
}

fn current(id: i32, admin: bool) -> CurrentUser {
    CurrentUser {
        id,
        login: format!("user{}", id),
        admin,
    }
}

#[test]
fn add_member_as_admin() {
    let uc = AddMemberUseCase::new();
    let dto = CreateMemberDto {
        user_id: 2,
        role_ids: vec![1],
    };
    assert!(uc.validate(&dto).is_ok());
    let p = require_project(Some(project(1, true))).unwrap();
    assert!(uc.check_permission(&current(1, true), false).is_ok());
    let user = uc.check_user(Some(person(2, USER_STATUS_ACTIVE))).unwrap();
    assert!(uc.check_not_member(false).is_ok());
    let roles = vec![role(1, "Manager")];
    assert!(uc.check_roles_found(&dto.role_ids, &roles).is_ok());
    assert!(uc.check_assignable(&current(1, true), &dto.role_ids, &vec![]).is_ok());
    let r = uc.build_response(10, &p, &user, &roles);
    assert_eq!(r.id, 10);
    assert_eq!(r.project.id, 1);
    assert_eq!(r.project.name, "Test Project");
    assert_eq!(r.user.id, 2);
    assert_eq!(r.user.name, "First2 Last2");
    assert_eq!(r.roles.len(), 1);
    assert_eq!(r.roles[0].name, "Manager");
    let m = uc.membership_to_store(1, &dto);
    assert_eq!((m.user_id, m.project_id, m.mail_notification), (2, 1, false));
    let dto = CreateMemberDto {
        user_id: 2,
        role_ids: vec![4, 1],
    };
    assert_eq!(
        uc.role_assignments(10, &dto),
        vec![
            RoleAssignment {
                member_id: 10,
                role_id: 4,
                inherited_from: None
            },
            RoleAssignment {
                member_id: 10,
                role_id: 1,
                inherited_from: None
            },
        ]
    );
}

#[test]
fn add_member_refusals() {
    let uc = AddMemberUseCase::new();
    let err = require_project(None).unwrap_err();
    assert!(matches!(err, ApplicationError::NotFound(_)));
    let err = uc.check_user(None).unwrap_err();
    assert!(matches!(err, ApplicationError::Validation(_)));
    assert_eq!(err.message(), "User not found");
    let err = uc.check_user(Some(person(2, USER_STATUS_LOCKED))).unwrap_err();
    assert_eq!(err.message(), "User is not active");
    let err = uc
        .validate(&CreateMemberDto {
            user_id: 2,
            role_ids: vec![],
        })
        .unwrap_err();
    assert!(matches!(err, ApplicationError::Validation(_)));
    assert_eq!(err.message(), "At least one role is required");
    let err = uc
        .validate(&CreateMemberDto {
            user_id: 0,
            role_ids: vec![],
        })
        .unwrap_err();
    assert_eq!(
        err.message(),
        "User ID must be a positive integer, At least one role is required"
    );
    let err = uc.check_not_member(true).unwrap_err();
    assert_eq!(err.message(), "User is already a member of this project");
    let err = uc.check_permission(&current(3, false), false).unwrap_err();
    assert!(matches!(err, ApplicationError::Forbidden(_)));
    assert_eq!(
        err.message(),
        "You don't have permission to manage members in this project"
    );
    let err = uc
        .check_roles_found(&vec![1, 4, 2, 9], &vec![role(1, "A"), role(2, "B")])
        .unwrap_err();
    assert_eq!(err.message(), "Role(s) not found: [4, 9]");
    let err = uc
        .check_assignable(&current(3, false), &vec![1, 5], &vec![role(1, "A")])
        .unwrap_err();
    assert!(matches!(err, ApplicationError::Forbidden(_)));
    assert!(uc
        .check_assignable(&current(3, false), &vec![1], &vec![role(1, "A")])
        .is_ok());
}

#[test]
fn remove_member_rules() {
    let uc = RemoveMemberUseCase::new();
    assert!(uc.check_permission(&current(1, true), false).is_ok());
    assert!(uc.check_permission(&current(2, false), true).is_ok());
    let err = uc.check_permission(&current(2, false), false).unwrap_err();
    assert!(matches!(err, ApplicationError::Forbidden(_)));
    assert!(uc.check_removable(&membership(1, 2, vec![None])).is_ok());
    let err = uc.check_removable(&membership(1, 2, vec![Some(100)])).unwrap_err();
    assert!(matches!(err, ApplicationError::Validation(_)));
    assert_eq!(
        err.message(),
        "Cannot remove inherited membership. Remove from parent project."
    );
    assert!(uc.check_removable(&membership(1, 2, vec![Some(100), None])).is_ok());
    assert!(uc.check_removable(&membership(1, 2, vec![])).is_ok());
    let mut locked = membership(1, 2, vec![None]);
    locked.user.status = USER_STATUS_LOCKED;
    assert!(uc.check_removable(&locked).is_ok());
    assert_eq!(
        uc.removal_steps(&locked),
        vec![
            RemovalStep::ClearAssignee {
                project_id: 1,
                user_id: 2
            },
            RemovalStep::DeleteMembership(1),
        ]
    );
    assert!(uc.needs_membership(&current(2, false)));
}

#[test]
fn update_member_rules() {
    let uc = UpdateMemberUseCase::new();
    let err = uc.validate(&UpdateMemberDto { role_ids: vec![] }).unwrap_err();
    assert!(matches!(err, ApplicationError::Validation(_)));
    let err = uc
        .check_roles_found(&vec![1, 999], &vec![role(1, "Developer")])
        .unwrap_err();
    assert_eq!(err.message(), "Role(s) not found: [999]");
    let m = membership(1, 2, vec![None]);
    let r = uc.build_response(&m, &project(1, false), &vec![role(3, "Manager"), role(4, "Reporter")]);
    assert_eq!(r.id, 1);
    assert_eq!(r.user.name, "First2 Last2");
    assert_eq!(
        r.roles.iter().map(|x| x.id).collect::<Vec<_>>(),
        vec![3, 4]
    );
    let plan = uc.role_plan(7, &UpdateMemberDto { role_ids: vec![3, 4] });
    assert_eq!(
        plan,
        vec![
            MemberRoleStep::ClearRoles(7),
            MemberRoleStep::Assign(RoleAssignment {
                member_id: 7,
                role_id: 3,
                inherited_from: None
            }),
            MemberRoleStep::Assign(RoleAssignment {
                member_id: 7,
                role_id: 4,
                inherited_from: None
            }),
        ]
    );
}

#[test]
fn member_visibility() {
    let get = GetMemberUseCase::new();
    let archived = project(PROJECT_STATUS_ARCHIVED, true);
    let err = get.check_permission(&current(2, false), &archived, true).unwrap_err();
    assert_eq!(err.message(), "Project is archived");
    assert!(get.check_permission(&current(1, true), &archived, false).is_ok());
    let private = project(1, false);
    assert!(get.needs_membership(&current(2, false), &private));
    assert!(!get.needs_membership(&current(2, false), &project(1, true)));
    let err = get.check_permission(&current(2, false), &private, false).unwrap_err();
    assert_eq!(err.message(), "You don't have permission to view this membership");
    assert!(get.check_permission(&current(2, false), &private, true).is_ok());
    let err = get.require_membership(None).unwrap_err();
    assert_eq!(err.to_string(), "Entity not found: Membership not found");
    let m = membership(5, 2, vec![None, Some(7)]);
    let r = get.build_response(&m, &private);
    assert_eq!(r.id, 5);
    assert_eq!(r.roles.len(), 2);

    let list = ListMembersUseCase::new();
    let err = list.check_permission(&current(2, false), &private, false).unwrap_err();
    assert_eq!(
        err.message(),
        "You don't have permission to view this project's members"
    );
    let r = list.build_response(&vec![membership(5, 2, vec![None]), membership(6, 3, vec![])], &private);
    assert_eq!(r.total_count, 2);
    assert_eq!(r.offset, 0);
    assert_eq!(r.limit, 25);
    assert_eq!(r.memberships[1].user.name, "First3 Last3");
    assert_eq!(r.memberships[0].project.name, "Test Project");
}
