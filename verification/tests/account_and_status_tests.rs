use rsmine::domain::{
    CurrentUser, EmailAddress, Enumeration, IssueCategory, IssueStatus, Member, MemberWithRoles,
    NewIssueStatus, Project, Role, RoleWithInheritance, User, USER_STATUS_ACTIVE,
    USER_STATUS_LOCKED, USER_STATUS_REGISTERED,
};
use rsmine::dto::LoginRequest;
use rsmine::errors::ApplicationError;
use rsmine::use_cases::auth::{GetCurrentUserUseCase, LoginUseCase, LogoutUseCase};
use rsmine::use_cases::category::{
    CreateCategoryUseCase, DeleteCategoryUseCase, ListCategoriesUseCase,
};
use rsmine::use_cases::enumeration::ListPrioritiesUseCase;
use rsmine::use_cases::issue_status::{
    CreateIssueStatusUseCase, DeleteIssueStatusUseCase, GetIssueStatusUseCase,
    ListIssueStatusesUseCase, UpdateIssueStatusRequest, UpdateIssueStatusUseCase,
};

fn account(status: i32) -> User {
    User {
        id: 1,
        login: "admin".to_string(),
        firstname: "Redmine".to_string(),
        lastname: "Admin".to_string(),
        admin: true,
        status,
        hashed_password: Some("hash".to_string()),
        salt: None,
        created_on: Some("2026-01-01T00:00:00+00:00".to_string()),
        updated_on: None,
        last_login_on: None,
        passwd_changed_on: None,
        twofa_scheme: None,
    }
}

fn status(id: i32, name: &str) -> IssueStatus {
    IssueStatus {
        id,
        name: name.to_string(),
        position: Some(id),
        is_closed: false,
        is_default: false,
        default_done_ratio: None,
    }
}

fn member_with_role(role_id: i32) -> MemberWithRoles {
    MemberWithRoles {
        member: Member {
            id: 1,
            project_id: 1,
            user_id: 2,
        },
        user: account(USER_STATUS_ACTIVE),
        roles: vec![RoleWithInheritance {
            role: Role {
                id: role_id,
                name: "Role".to_string(),
            },
            inherited_from: None,
        }],
    }
}

#[test]
fn login_with_good_credentials() {
    let uc = LoginUseCase::new();
    let dto = LoginRequest {
        username: "  admin ".to_string(),
        password: "admin".to_string(),
    };
    assert_eq!(uc.login_name(&dto), "admin");
    let user = uc.check_account(Some(account(USER_STATUS_ACTIVE))).unwrap();
    assert_eq!(uc.password_material(&user), ("", "hash"));
    assert!(uc.check_password(true).is_ok());
    let r = uc.build_response("token".to_string(), user);
    assert_eq!(r.token, "token");
    assert_eq!(r.user.login, "admin");
    assert!(r.user.admin);
}

#[test]
fn login_refusals() {
    let uc = LoginUseCase::new();
    let err = uc.check_account(None).unwrap_err();
    assert!(matches!(err, ApplicationError::Unauthorized(_)));
    assert_eq!(err.message(), "Invalid username or password");
    let err = uc.check_account(Some(account(USER_STATUS_LOCKED))).unwrap_err();
    assert!(matches!(err, ApplicationError::Forbidden(_)));
    assert_eq!(err.message(), "Account is locked");
    let err = uc.check_account(Some(account(USER_STATUS_REGISTERED))).unwrap_err();
    assert_eq!(err.message(), "Account is not active");
    let err = uc.check_password(false).unwrap_err();
    assert_eq!(err.to_string(), "Unauthorized: Invalid username or password");
    assert!(matches!(uc.token_error(), ApplicationError::Internal(_)));
}

#[test]
fn logout_keeps_tokens_until_they_expire() {
    let uc = LogoutUseCase::new(86400);
    assert_eq!(uc.revocation_seconds(), 86400);
    let err = uc.invalid_token_error();
    assert_eq!(err.to_string(), "Unauthorized: Invalid token");
    let r = uc.revocation("abc.def", 4);
    assert_eq!(r.user_id, 4);
    assert_eq!(r.action, "blacklist");
    assert_eq!(r.value, "abc.def");
    assert_eq!(r.valid_for_seconds, 86400);
}

#[test]
fn current_user_detail() {
    let uc = GetCurrentUserUseCase::new();
    let err = uc.require_user(None).unwrap_err();
    assert_eq!(err.to_string(), "Entity not found: User not found");
    let user = account(USER_STATUS_ACTIVE);
    let r = uc.build_response(
        &user,
        Some(EmailAddress {
            address: "admin@example.net".to_string(),
        }),
        Some("key".to_string()),
    );
    assert_eq!(r.user.mail, "admin@example.net");
    assert_eq!(r.user.api_key, Some("key".to_string()));
    assert_eq!(r.user.created_on, user.created_on);
    let r = uc.build_response(&user, None, None);
    assert_eq!(r.user.mail, "");
}

#[test]
fn category_creation_rules() {
    let uc = CreateCategoryUseCase::new();
    assert!(uc.check_permission(true, &None).is_ok());
    assert!(uc.check_permission(false, &Some(member_with_role(3))).is_ok());
    assert!(uc.check_permission(false, &Some(member_with_role(4))).is_ok());
    let err = uc.check_permission(false, &Some(member_with_role(5))).unwrap_err();
    assert_eq!(
        err.message(),
        "You don't have permission to manage categories in this project"
    );
    assert!(matches!(uc.check_permission(false, &None), Err(ApplicationError::Forbidden(_))));
    let err = uc.check_name_available("Backend", true).unwrap_err();
    assert_eq!(
        err.message(),
        "Category with name 'Backend' already exists in this project"
    );
    let err = uc.check_assignee(true, Some(99), false, false).unwrap_err();
    assert_eq!(err.message(), "User with id 99 not found");
    let err = uc.check_assignee(false, Some(5), true, false).unwrap_err();
    assert_eq!(err.message(), "Assigned user must be a member of the project");
    assert!(uc.check_assignee(true, Some(5), true, false).is_ok());
    assert!(uc.check_assignee(false, None, false, false).is_ok());
    let project = Project {
        id: 1,
        name: "Test".to_string(),
        is_public: true,
        status: 1,
    };
    let r = uc.build_response(
        IssueCategory {
            id: 4,
            project_id: 1,
            name: "Backend".to_string(),
            assigned_to_id: Some(1),
        },
        &project,
        &Some(account(USER_STATUS_ACTIVE)),
    );
    assert_eq!(r.issue_category.assigned_to.unwrap().name, "Redmine Admin");
    let list = ListCategoriesUseCase::new();
    let item = list.build_item(
        &IssueCategory {
            id: 4,
            project_id: 1,
            name: "Backend".to_string(),
            assigned_to_id: None,
        },
        &project,
        &None,
    );
    assert_eq!(item.project.name, "Test");
    assert!(item.assigned_to.is_none());
}

#[test]
fn category_deletion_moves_or_refuses() {
    let uc = DeleteCategoryUseCase::new();
    assert_eq!(uc.plan_issues(0, None).unwrap(), None);
    assert_eq!(uc.plan_issues(3, Some(9)).unwrap(), Some(9));
    let err = uc.plan_issues(3, None).unwrap_err();
    assert_eq!(
        err.message(),
        "Category has 3 issues. Specify reassign_to_id to reassign them."
    );
    let category = IssueCategory {
        id: 1,
        project_id: 1,
        name: "A".to_string(),
        assigned_to_id: None,
    };
    let err = uc.check_reassign_target(&category, &None).unwrap_err();
    assert_eq!(err.message(), "Target category not found");
    let other = IssueCategory {
        id: 2,
        project_id: 2,
        name: "B".to_string(),
        assigned_to_id: None,
    };
    let err = uc.check_reassign_target(&category, &Some(other)).unwrap_err();
    assert_eq!(err.message(), "Target category must be in the same project");
    let err = uc.require_category(None).unwrap_err();
    assert!(matches!(err, ApplicationError::NotFound(_)));
}

#[test]
fn issue_status_creation_and_update() {
    let create = CreateIssueStatusUseCase::new();
    let blank = NewIssueStatus {
        name: "  ".to_string(),
        position: None,
        is_closed: false,
        is_default: true,
        default_done_ratio: None,
    };
    let err = create.check_name(&blank).unwrap_err();
    assert_eq!(err.message(), "Issue status name cannot be empty");
    assert!(create.clears_default(&blank));
    let named = NewIssueStatus {
        name: "Resolved".to_string(),
        position: None,
        is_closed: true,
        is_default: false,
        default_done_ratio: None,
    };
    let err = create.check_name_available(&named, true).unwrap_err();
    assert!(matches!(err, ApplicationError::AlreadyExists(_)));
    assert_eq!(err.message(), "Issue status with name 'Resolved' already exists");

    let update = UpdateIssueStatusUseCase::new();
    let request = UpdateIssueStatusRequest {
        name: Some("  Done ".to_string()),
        is_closed: Some(true),
        is_default: None,
        default_done_ratio: Some(100),
    };
    assert!(update.needs_name_check(&request));
    assert!(!update.clears_default(&request));
    let updated = update.apply(&status(3, "Resolved"), &request, false).unwrap();
    assert_eq!(updated.name, "Done");
    assert!(updated.is_closed);
    assert_eq!(updated.position, Some(3));
    assert_eq!(updated.default_done_ratio, Some(100));
    let err = update.apply(&status(3, "Resolved"), &request, true).unwrap_err();
    assert!(matches!(err, ApplicationError::AlreadyExists(_)));
    let err = update.require_status(42, None).unwrap_err();
    assert_eq!(err.message(), "Issue status with id 42 not found");
    assert_eq!(update.build_response(&updated).issue_status.name, "Done");
}

#[test]
fn issue_status_deletion_and_listing() {
    let uc = DeleteIssueStatusUseCase::new();
    let admin = CurrentUser {
        id: 1,
        login: "admin".to_string(),
        admin: true,
    };
    let s = status(3, "Resolved");
    assert_eq!(uc.plan_reassignment(&s, 0, None, &admin).unwrap(), None);
    assert_eq!(uc.plan_reassignment(&s, 2, Some(1), &admin).unwrap(), Some(1));
    let err = uc.plan_reassignment(&s, 2, None, &admin).unwrap_err();
    assert_eq!(
        err.message(),
        "Cannot delete issue status 'Resolved' because it is used by 2 issue(s). Please provide reassign_to_id."
    );
    let err = uc.plan_reassignment(&s, 2, Some(3), &admin).unwrap_err();
    assert_eq!(err.message(), "Cannot reassign issues to the status being deleted");
    let err = uc.require_target(8, None).unwrap_err();
    assert_eq!(err.to_string(), "Validation failed: Target issue status with id 8 not found");

    let list = ListIssueStatusesUseCase::new();
    let r = list.build_response(&vec![status(1, "New"), status(2, "In Progress")]);
    assert_eq!(r.issue_statuses.len(), 2);
    assert_eq!(r.issue_statuses[1].name, "In Progress");
    let get = GetIssueStatusUseCase::new();
    assert_eq!(get.build_response(&status(1, "New")).issue_status.id, 1);
}

#[test]
fn priorities_are_listed_in_order() {
    let uc = ListPrioritiesUseCase::new();
    let r = uc.build_response(vec![
        Enumeration {
            id: 1,
            name: "Low".to_string(),
            is_default: false,
            active: true,
        },
        Enumeration {
            id: 2,
            name: "Normal".to_string(),
            is_default: true,
            active: true,
        },
    ]);
    assert_eq!(r.issue_priorities.len(), 2);
    assert!(r.issue_priorities[1].is_default);
    assert_eq!(r.issue_priorities[0].name, "Low");
}
