use rsmine::domain::{
    CurrentUser, Issue, Member, MemberWithRoles, Project, Role, RoleWithInheritance, User,
    USER_STATUS_ACTIVE, USER_STATUS_LOCKED,
};
use rsmine::dto::{CreateCategoryDto, CreateMemberDto, UpdateIssueDto, UpdateMemberDto};
use rsmine::errors::ApplicationError;
use rsmine::use_cases::auth::login::{LoginFacts, LoginLookup};
use rsmine::use_cases::auth::{LoginUseCase, LogoutUseCase};
use rsmine::use_cases::category::create_category::{CreateCategoryFacts, CreateCategoryLookup};
use rsmine::use_cases::category::CreateCategoryUseCase;
use rsmine::use_cases::flow::Next;
use rsmine::use_cases::issue::delete_issue::{DeleteIssueFacts, DeleteIssueLookup};
use rsmine::use_cases::issue::update_issue::{UpdateIssueFacts, UpdateIssueLookup};
use rsmine::use_cases::issue::{DeleteIssueUseCase, UpdateIssueUseCase, UpdateLookups};
use rsmine::use_cases::member::add_member::{AddMemberFacts, AddMemberLookup};
use rsmine::use_cases::member::remove_member::{RemoveMemberFacts, RemoveMemberLookup};
use rsmine::use_cases::member::update_member::{UpdateMemberFacts, UpdateMemberLookup};
use rsmine::use_cases::member::{AddMemberUseCase, RemoveMemberUseCase, UpdateMemberUseCase};

fn person(id: i32, status: i32) -> User {
    User {
        id,
        login: format!("user{}", id),
        firstname: format!("First{}", id),
        lastname: format!("Last{}", id),
        admin: false,
        status,
        hashed_password: None,
        salt: None,
        created_on: None,
        updated_on: None,
        last_login_on: None,
        passwd_changed_on: None,
        twofa_scheme: None,
    }
}

fn role(id: i32) -> Role {
    Role { id, name: format!("Role{}", id) }
}

fn project() -> Project {
    Project { id: 1, name: "Test Project".to_string(), is_public: false, status: 1 }
}

fn current(id: i32, admin: bool) -> CurrentUser {
    CurrentUser { id, login: format!("user{}", id), admin }
}

fn membership(roles: Vec<(i32, Option<i32>)>) -> MemberWithRoles {
    MemberWithRoles {
        member: Member { id: 7, project_id: 1, user_id: 5 },
        user: person(5, USER_STATUS_ACTIVE),
        roles: roles
            .into_iter()
            .map(|(id, from)| RoleWithInheritance { role: role(id), inherited_from: from })
            .collect(),
    }
}

fn issue(id: i32, project_id: i32) -> Issue {
    Issue {
        id,
        project_id,
        tracker_id: 1,
        status_id: 1,
        priority_id: 2,
        author_id: 2,
        assigned_to_id: None,
        category_id: None,
        parent_id: None,
        subject: "Test Issue".to_string(),
        description: None,
        start_date: None,
        due_date: None,
        done_ratio: 0,
        is_private: false,
        created_on: None,
        updated_on: None,
        closed_on: None,
    }
}

fn no_update() -> UpdateIssueDto {
    UpdateIssueDto {
        subject: None,
        description: None,
        status_id: None,
        priority_id: None,
        tracker_id: None,
        assigned_to_id: None,
        category_id: None,
        parent_id: None,
        start_date: None,
        due_date: None,
        estimated_hours_given: false,
        done_ratio: None,
        is_private: None,
        notes: None,
        private_notes: false,
        uploads: None,
    }
}

fn lookups(parent_project_id: Option<i32>) -> UpdateLookups {
    UpdateLookups {
        status: None,
        priority_found: false,
        tracker_found: false,
        project_tracker_ids: vec![],
        assignee_found: false,
        parent_project_id,
    }
}

fn refused(n: Next<impl std::fmt::Debug>) -> ApplicationError {
    match n {
        Next::Refuse(e) => e,
        other => panic!("expected a refusal, got {:?}", other),
    }
}

#[test]
fn adding_a_member_asks_in_order_and_then_proceeds() {
    let uc = AddMemberUseCase::new();
    let me = current(2, false);
    let dto = CreateMemberDto { user_id: 5, role_ids: vec![3] };
    let mut f = AddMemberFacts::new();
    assert!(matches!(uc.next_step(&me, &dto, &f), Next::Fetch(AddMemberLookup::Project)));
    f.project = Some(Some(project()));
    assert!(matches!(
        uc.next_step(&me, &dto, &f),
        Next::Fetch(AddMemberLookup::RequesterMembership)
    ));
    f.requester_is_member = Some(true);
    assert!(matches!(uc.next_step(&me, &dto, &f), Next::Fetch(AddMemberLookup::User)));
    f.user = Some(Some(person(5, USER_STATUS_ACTIVE)));
    assert!(matches!(uc.next_step(&me, &dto, &f), Next::Fetch(AddMemberLookup::UserMembership)));
    f.user_is_member = Some(false);
    assert!(matches!(uc.next_step(&me, &dto, &f), Next::Fetch(AddMemberLookup::Roles)));
    f.roles = Some(vec![role(3)]);
    assert!(matches!(uc.next_step(&me, &dto, &f), Next::Fetch(AddMemberLookup::ManagedRoles)));
    f.managed_roles = Some(vec![role(3), role(4)]);
    assert!(matches!(uc.next_step(&me, &dto, &f), Next::Proceed));
}

#[test]
fn adding_a_member_as_admin_skips_the_requester_checks() {
    let uc = AddMemberUseCase::new();
    let me = current(1, true);
    let dto = CreateMemberDto { user_id: 5, role_ids: vec![3] };
    let mut f = AddMemberFacts::new();
    f.project = Some(Some(project()));
    assert!(matches!(uc.next_step(&me, &dto, &f), Next::Fetch(AddMemberLookup::User)));
    f.user = Some(Some(person(5, USER_STATUS_ACTIVE)));
    f.user_is_member = Some(false);
    f.roles = Some(vec![role(3)]);
    assert!(matches!(uc.next_step(&me, &dto, &f), Next::Proceed));
}

#[test]
fn adding_a_member_answers_with_the_first_failing_check() {
    let uc = AddMemberUseCase::new();
    let me = current(2, false);
    let bad = CreateMemberDto { user_id: 0, role_ids: vec![] };
    let e = refused(uc.next_step(&me, &bad, &AddMemberFacts::new()));
    assert!(matches!(e, ApplicationError::Validation(_)));

    let dto = CreateMemberDto { user_id: 5, role_ids: vec![3, 9] };
    let mut f = AddMemberFacts::new();
    f.project = Some(None);
    f.requester_is_member = Some(false);
    let e = refused(uc.next_step(&me, &dto, &f));
    assert!(matches!(e, ApplicationError::NotFound(ref m) if m == "Project not found"));

    f.project = Some(Some(project()));
    let e = refused(uc.next_step(&me, &dto, &f));
    assert!(matches!(e, ApplicationError::Forbidden(_)));

    f.requester_is_member = Some(true);
    f.user = Some(Some(person(5, USER_STATUS_LOCKED)));
    f.user_is_member = Some(true);
    let e = refused(uc.next_step(&me, &dto, &f));
    assert!(matches!(e, ApplicationError::Validation(ref m) if m == "User is not active"));

    f.user = Some(Some(person(5, USER_STATUS_ACTIVE)));
    let e = refused(uc.next_step(&me, &dto, &f));
    assert!(
        matches!(e, ApplicationError::Validation(ref m) if m == "User is already a member of this project")
    );

    f.user_is_member = Some(false);
    f.roles = Some(vec![role(3)]);
    let e = refused(uc.next_step(&me, &dto, &f));
    assert!(matches!(e, ApplicationError::Validation(ref m) if m == "Role(s) not found: [9]"));

    f.roles = Some(vec![role(3), role(9)]);
    f.managed_roles = Some(vec![role(3)]);
    let e = refused(uc.next_step(&me, &dto, &f));
    assert!(matches!(e, ApplicationError::Forbidden(_)));
}

#[test]
fn updating_an_issue_refuses_bad_requests_before_any_lookup() {
    let uc = UpdateIssueUseCase::new();
    let me = current(2, false);
    let e = refused(uc.next_step(&me, 99, &no_update(), &UpdateIssueFacts::new()));
    assert!(matches!(e, ApplicationError::Validation(ref m) if m == "No changes provided"));

    let mut blank = no_update();
    blank.subject = Some("   ".to_string());
    let e = refused(uc.next_step(&me, 99, &blank, &UpdateIssueFacts::new()));
    assert!(matches!(e, ApplicationError::Validation(ref m) if m.contains("blank")));
}

#[test]
fn updating_an_issue_asks_in_order_and_checks_the_parent() {
    let uc = UpdateIssueUseCase::new();
    let me = current(2, false);
    let mut dto = no_update();
    dto.parent_id = Some(40);
    let mut f = UpdateIssueFacts::new();
    assert!(matches!(uc.next_step(&me, 10, &dto, &f), Next::Fetch(UpdateIssueLookup::Issue)));
    f.issue = Some(None);
    let e = refused(uc.next_step(&me, 10, &dto, &f));
    assert!(matches!(e, ApplicationError::NotFound(ref m) if m == "Issue 10 not found"));

    let mut current_parent = issue(10, 1);
    current_parent.parent_id = Some(40);
    f.issue = Some(Some(current_parent));
    assert!(matches!(
        uc.next_step(&me, 10, &dto, &f),
        Next::Fetch(UpdateIssueLookup::RequesterMembership)
    ));
    f.requester_is_member = Some(false);
    let e = refused(uc.next_step(&me, 10, &dto, &f));
    assert!(matches!(e, ApplicationError::Forbidden(_)));

    f.requester_is_member = Some(true);
    assert!(matches!(
        uc.next_step(&me, 10, &dto, &f),
        Next::Fetch(UpdateIssueLookup::ChangeLookups)
    ));
    f.lookups = Some(lookups(Some(2)));
    let e = refused(uc.next_step(&me, 10, &dto, &f));
    assert!(
        matches!(e, ApplicationError::Validation(ref m) if m == "Parent issue must be in the same project")
    );
    f.lookups = Some(lookups(Some(1)));
    assert!(matches!(uc.next_step(&me, 10, &dto, &f), Next::Proceed));
}

#[test]
fn creating_a_category_checks_the_project_first() {
    let uc = CreateCategoryUseCase::new();
    let dto = CreateCategoryDto { name: "Backend".to_string(), assigned_to_id: Some(5) };
    let mut f = CreateCategoryFacts::new();
    assert!(matches!(uc.next_step(false, &dto, &f), Next::Fetch(CreateCategoryLookup::Project)));
    f.project = Some(None);
    f.requester_membership = Some(None);
    let e = refused(uc.next_step(false, &dto, &f));
    assert!(matches!(e, ApplicationError::NotFound(ref m) if m == "Project not found"));

    f.project = Some(Some(project()));
    let e = refused(uc.next_step(false, &dto, &f));
    assert!(matches!(e, ApplicationError::Forbidden(_)));

    f.requester_membership = Some(Some(membership(vec![(3, None)])));
    assert!(matches!(uc.next_step(false, &dto, &f), Next::Fetch(CreateCategoryLookup::NameTaken)));
    f.name_taken = Some(true);
    let e = refused(uc.next_step(false, &dto, &f));
    assert!(matches!(
        e,
        ApplicationError::Validation(ref m) if m == "Category with name 'Backend' already exists in this project"
    ));

    f.name_taken = Some(false);
    assert!(matches!(uc.next_step(false, &dto, &f), Next::Fetch(CreateCategoryLookup::Assignee)));
    f.assignee = Some(None);
    let e = refused(uc.next_step(false, &dto, &f));
    assert!(matches!(e, ApplicationError::Validation(ref m) if m == "User with id 5 not found"));

    f.assignee = Some(Some(person(5, USER_STATUS_ACTIVE)));
    assert!(matches!(
        uc.next_step(false, &dto, &f),
        Next::Fetch(CreateCategoryLookup::AssigneeMembership)
    ));
    f.assignee_is_member = Some(false);
    let e = refused(uc.next_step(false, &dto, &f));
    assert!(matches!(
        e,
        ApplicationError::Validation(ref m) if m == "Assigned user must be a member of the project"
    ));
    f.assignee_is_member = Some(true);
    assert!(matches!(uc.next_step(false, &dto, &f), Next::Proceed));
    assert!(matches!(uc.next_step(true, &dto, &f), Next::Proceed));
}

#[test]
fn updating_a_member_answers_with_the_first_failing_check() {
    let uc = UpdateMemberUseCase::new();
    let me = current(2, false);
    let dto = UpdateMemberDto { role_ids: vec![3, 8] };
    let mut f = UpdateMemberFacts::new();
    assert!(matches!(uc.next_step(&me, &dto, &f), Next::Fetch(UpdateMemberLookup::Membership)));
    f.membership = Some(None);
    let e = refused(uc.next_step(&me, &dto, &f));
    assert!(matches!(e, ApplicationError::NotFound(ref m) if m == "Membership not found"));

    f.membership = Some(Some(membership(vec![(3, None)])));
    assert!(matches!(
        uc.next_step(&me, &dto, &f),
        Next::Fetch(UpdateMemberLookup::RequesterMembership)
    ));
    f.requester_is_member = Some(true);
    assert!(matches!(uc.next_step(&me, &dto, &f), Next::Fetch(UpdateMemberLookup::Roles)));
    f.roles = Some(vec![role(3)]);
    let e = refused(uc.next_step(&me, &dto, &f));
    assert!(matches!(e, ApplicationError::Validation(ref m) if m == "Role(s) not found: [8]"));
    f.roles = Some(vec![role(3), role(8)]);
    assert!(matches!(uc.next_step(&me, &dto, &f), Next::Fetch(UpdateMemberLookup::ManagedRoles)));
    f.managed_roles = Some(vec![role(3), role(8)]);
    assert!(matches!(uc.next_step(&me, &dto, &f), Next::Proceed));
}

#[test]
fn removing_a_member_answers_with_the_first_failing_check() {
    let uc = RemoveMemberUseCase::new();
    let me = current(2, false);
    let mut f = RemoveMemberFacts::new();
    assert!(matches!(uc.next_step(&me, &f), Next::Fetch(RemoveMemberLookup::Membership)));
    f.membership = Some(Some(membership(vec![(3, Some(100))])));
    assert!(matches!(
        uc.next_step(&me, &f),
        Next::Fetch(RemoveMemberLookup::RequesterMembership)
    ));
    f.requester_is_member = Some(false);
    let e = refused(uc.next_step(&me, &f));
    assert!(matches!(e, ApplicationError::Forbidden(_)));
    f.requester_is_member = Some(true);
    let e = refused(uc.next_step(&me, &f));
    assert!(matches!(
        e,
        ApplicationError::Validation(ref m) if m == "Cannot remove inherited membership. Remove from parent project."
    ));
    f.membership = Some(Some(membership(vec![(3, Some(100)), (4, None)])));
    assert!(matches!(uc.next_step(&me, &f), Next::Proceed));
}

#[test]
fn deleting_an_issue_answers_with_the_first_failing_check() {
    let uc = DeleteIssueUseCase::new();
    let me = current(2, false);
    let mut f = DeleteIssueFacts::new();
    assert!(matches!(uc.next_step(&me, &f), Next::Fetch(DeleteIssueLookup::Issue)));
    f.issue = Some(None);
    let e = refused(uc.next_step(&me, &f));
    assert!(matches!(e, ApplicationError::NotFound(ref m) if m == "Issue not found"));
    f.issue = Some(Some(issue(10, 1)));
    f.requester_is_member = Some(false);
    let e = refused(uc.next_step(&me, &f));
    assert!(matches!(e, ApplicationError::Forbidden(_)));
    f.requester_is_member = Some(true);
    assert!(matches!(uc.next_step(&me, &f), Next::Fetch(DeleteIssueLookup::Children)));
    f.children = Some(vec![issue(11, 1)]);
    let e = refused(uc.next_step(&me, &f));
    assert!(matches!(
        e,
        ApplicationError::Validation(ref m) if m == "Cannot delete an issue with subtasks. Delete subtasks first."
    ));
    f.children = Some(vec![]);
    assert!(matches!(uc.next_step(&me, &f), Next::Proceed));
}

#[test]
fn login_checks_the_account_before_the_password() {
    let uc = LoginUseCase::new();
    let mut f = LoginFacts::new();
    assert!(matches!(uc.next_step(&f), Next::Fetch(LoginLookup::Account)));
    f.account = Some(Some(person(1, USER_STATUS_LOCKED)));
    f.password_ok = Some(false);
    let e = refused(uc.next_step(&f));
    assert!(matches!(e, ApplicationError::Forbidden(ref m) if m == "Account is locked"));
    f.account = Some(Some(person(1, USER_STATUS_ACTIVE)));
    let e = refused(uc.next_step(&f));
    assert!(matches!(e, ApplicationError::Unauthorized(ref m) if m == "Invalid username or password"));
    f.password_ok = None;
    assert!(matches!(uc.next_step(&f), Next::Fetch(LoginLookup::PasswordCheck)));
    f.password_ok = Some(true);
    assert!(matches!(uc.next_step(&f), Next::Proceed));
}

#[test]
fn logout_keeps_nothing_for_an_invalid_token() {
    let uc = LogoutUseCase::new(3600);
    let e = uc.revocation_for(false, "abc", 4).unwrap_err();
    assert!(matches!(e, ApplicationError::Unauthorized(ref m) if m == "Invalid token"));
    let r = uc.revocation_for(true, "abc", 4).unwrap();
    assert_eq!(r.user_id, 4);
    assert_eq!(r.action, "blacklist");
    assert_eq!(r.value, "abc");
    assert_eq!(r.valid_for_seconds, 3600);
}
