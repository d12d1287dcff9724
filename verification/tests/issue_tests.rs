use rsmine::domain::{
    ClosedOnChange, CurrentUser, Enumeration, Issue, IssueRelation, IssueStatus, Journal,
    JournalDetail, Project, Tracker, User,
};
use rsmine::dto::{CreateIssueDto, UpdateIssueDto};
use rsmine::errors::ApplicationError;
use rsmine::use_cases::issue::create_issue::DEFAULT_PRIORITY_ID;
use rsmine::use_cases::issue::{
    CreateIssueUseCase, DeleteIssueUseCase, DeletionStep, GetIssueUseCase, IncludeOption,
    JournalDetailResponse, ListIssuesUseCase, ListJournalsUseCase, UpdateIssueUseCase,
    UpdateLookups,
};

fn issue(id: i32, project_id: i32) -> Issue {
    Issue {
        id,
        project_id,
        tracker_id: 1,
        status_id: 1,
        priority_id: 2,
        author_id: 2,
        assigned_to_id: None,
        category_id: None,
        parent_id: None,
        subject: "Test Issue".to_string(),
        description: Some("Description".to_string()),
        start_date: None,
        due_date: Some("2026-03-01".to_string()),
        done_ratio: 0,
        is_private: false,
        created_on: Some("2026-01-01T00:00:00+00:00".to_string()),
        updated_on: None,
        closed_on: None,
    }
}

fn person(id: i32, first: &str, last: &str) -> User {
    User {
        id,
        login: format!("user{}", id),
        firstname: first.to_string(),
        lastname: last.to_string(),
        admin: false,
        status: 1,
        hashed_password: None,
        salt: None,
        created_on: None,
        updated_on: None,
        last_login_on: None,
        passwd_changed_on: None,
        twofa_scheme: None,
    }
}

fn current(id: i32, admin: bool) -> CurrentUser {
    CurrentUser {
        id,
        login: format!("user{}", id),
        admin,
    }
}

fn status(id: i32, is_closed: bool) -> IssueStatus {
    IssueStatus {
        id,
        name: if is_closed { "Closed".to_string() } else { "New".to_string() },
        position: Some(id),
        is_closed,
        is_default: false,
        default_done_ratio: None,
    }
}

fn project(id: i32, is_public: bool) -> Project {
    Project {
        id,
        name: format!("Project {}", id),
        is_public,
        status: 1,
    }
}

fn no_update() -> UpdateIssueDto {
    UpdateIssueDto {
        subject: None,
        description: None,
        status_id: None,
        priority_id: None,
        tracker_id: None,
        assigned_to_id: None,
        category_id: None,
        parent_id: None,
        start_date: None,
        due_date: None,
        estimated_hours_given: false,
        done_ratio: None,
        is_private: None,
        notes: None,
        private_notes: false,
        uploads: None,
    }
}

fn found_everything() -> UpdateLookups {
    UpdateLookups {
        status: Some(status(3, false)),
        priority_found: true,
        tracker_found: true,
        project_tracker_ids: vec![1, 2],
        assignee_found: true,
        parent_project_id: Some(1),
    }
}

fn new_issue_dto() -> CreateIssueDto {
    CreateIssueDto {
        project_id: 1,
        tracker_id: 1,
        subject: "  New issue  ".to_string(),
        description: Some("  \n ".to_string()),
        status_id: None,
        priority_id: None,
        assigned_to_id: Some(5),
        category_id: None,
        parent_id: None,
        start_date: Some("2026-02-01".to_string()),
        due_date: None,
        is_private: true,
        uploads: None,
    }
}

fn changes(details: &[rsmine::domain::NewJournalDetail]) -> Vec<(String, Option<String>, Option<String>)> {
    details
        .iter()
        .map(|d| (d.prop_key.clone(), d.old_value.clone(), d.value.clone()))
        .collect()
}

#[test]
fn update_by_admin_records_subject_and_ratio() {
    let uc = UpdateIssueUseCase::new();
    let mut dto = no_update();
    dto.subject = Some("  Updated Subject ".to_string());
    dto.done_ratio = Some(50);
    dto.notes = Some("Progress update".to_string());
    assert!(uc.validate(&dto).is_ok());
    assert!(uc.check_has_changes(&dto).is_ok());
    assert!(uc.check_permission(&current(1, true), false).is_ok());
    let (update, details) = uc.plan(&issue(1, 1), &dto, &found_everything()).unwrap();
    assert_eq!(update.subject, Some("Updated Subject".to_string()));
    assert_eq!(update.done_ratio, Some(50));
    assert_eq!(update.status_id, None);
    assert_eq!(update.closed_on, ClosedOnChange::Keep);
    assert_eq!(
        changes(&details),
        vec![
            (
                "subject".to_string(),
                Some("Test Issue".to_string()),
                Some("Updated Subject".to_string())
            ),
            ("done_ratio".to_string(), Some("0".to_string()), Some("50".to_string())),
        ]
    );
    assert!(details.iter().all(|d| d.property == "attr" && d.journal_id == 0));
    assert!(uc.needs_journal(&dto.notes, details.len()));
    let journal = uc.build_journal(1, 1, dto.notes.clone(), false);
    assert_eq!(journal.journalized_type, "Issue");
    assert_eq!(journal.notes, Some("Progress update".to_string()));
}

#[test]
fn update_by_non_member_is_forbidden() {
    let uc = UpdateIssueUseCase::new();
    assert!(uc.needs_membership(&current(1, false)));
    assert!(!uc.needs_membership(&current(1, true)));
    let err = uc.check_permission(&current(1, false), false).unwrap_err();
    assert!(matches!(err, ApplicationError::Forbidden(_)));
    assert_eq!(err.message(), "You don't have permission to edit this issue");
    assert!(uc.check_permission(&current(1, false), true).is_ok());
}

#[test]
fn update_of_missing_issue_is_not_found() {
    let uc = UpdateIssueUseCase::new();
    let err = uc.require_issue(999, None).unwrap_err();
    assert!(matches!(err, ApplicationError::NotFound(_)));
    assert_eq!(err.message(), "Issue 999 not found");
    assert_eq!(uc.require_issue(1, Some(issue(1, 1))).unwrap().id, 1);
}

#[test]
fn update_validation_and_no_changes() {
    let uc = UpdateIssueUseCase::new();
    let mut dto = no_update();
    dto.subject = Some("   ".to_string());
    let err = uc.validate(&dto).unwrap_err();
    assert_eq!(err.to_string(), "Validation failed: Subject cannot be blank");
    let mut dto = no_update();
    dto.done_ratio = Some(150);
    assert!(matches!(uc.validate(&dto), Err(ApplicationError::Validation(_))));
    let err = uc.check_has_changes(&no_update()).unwrap_err();
    assert_eq!(err.message(), "No changes provided");
}

#[test]
fn update_status_checks_and_closing_time() {
    let uc = UpdateIssueUseCase::new();
    let mut dto = no_update();
    dto.status_id = Some(999);
    assert_eq!(uc.status_to_look_up(&issue(1, 1), &dto), Some(999));
    let mut lookups = found_everything();
    lookups.status = None;
    let err = uc.plan(&issue(1, 1), &dto, &lookups).unwrap_err();
    assert_eq!(err.message(), "Status is invalid");

    let mut dto = no_update();
    dto.status_id = Some(5);
    let mut lookups = found_everything();
    lookups.status = Some(status(5, true));
    let (update, details) = uc.plan(&issue(1, 1), &dto, &lookups).unwrap();
    assert_eq!(update.status_id, Some(5));
    assert_eq!(update.closed_on, ClosedOnChange::CloseNow);
    assert_eq!(
        changes(&details),
        vec![("status_id".to_string(), Some("1".to_string()), Some("5".to_string()))]
    );

    let mut closed = issue(1, 1);
    closed.closed_on = Some("2026-01-02T00:00:00+00:00".to_string());
    let (update, _) = uc.plan(&closed, &dto, &lookups).unwrap();
    assert_eq!(update.closed_on, ClosedOnChange::Keep);

    lookups.status = Some(status(5, false));
    let (update, _) = uc.plan(&closed, &dto, &lookups).unwrap();
    assert_eq!(update.closed_on, ClosedOnChange::Reopen);

    let mut same = no_update();
    same.status_id = Some(1);
    assert_eq!(uc.status_to_look_up(&issue(1, 1), &same), None);
    let (update, details) = uc.plan(&issue(1, 1), &same, &UpdateLookups {
        status: None,
        priority_found: false,
        tracker_found: false,
        project_tracker_ids: vec![],
        assignee_found: false,
        parent_project_id: None,
    })
    .unwrap();
    assert_eq!(update.status_id, None);
    assert!(details.is_empty());
}

#[test]
fn update_lookup_errors_come_in_order() {
    let uc = UpdateIssueUseCase::new();
    let mut dto = no_update();
    dto.priority_id = Some(4);
    dto.tracker_id = Some(3);
    dto.assigned_to_id = Some(8);
    let mut lookups = found_everything();
    lookups.priority_found = false;
    lookups.tracker_found = false;
    assert_eq!(uc.plan(&issue(1, 1), &dto, &lookups).unwrap_err().message(), "Priority is invalid");
    lookups.priority_found = true;
    assert_eq!(uc.plan(&issue(1, 1), &dto, &lookups).unwrap_err().message(), "Tracker is invalid");
    lookups.tracker_found = true;
    assert_eq!(
        uc.plan(&issue(1, 1), &dto, &lookups).unwrap_err().message(),
        "Tracker is not available in this project"
    );
    lookups.project_tracker_ids = vec![1, 3];
    lookups.assignee_found = false;
    assert_eq!(uc.plan(&issue(1, 1), &dto, &lookups).unwrap_err().message(), "Assignee is invalid");
    lookups.assignee_found = true;
    let (update, details) = uc.plan(&issue(1, 1), &dto, &lookups).unwrap();
    assert_eq!(update.priority_id, Some(4));
    assert_eq!(update.tracker_id, Some(3));
    assert_eq!(update.assigned_to_id, Some(Some(8)));
    assert_eq!(
        changes(&details),
        vec![
            ("priority_id".to_string(), Some("2".to_string()), Some("4".to_string())),
            ("tracker_id".to_string(), Some("1".to_string()), Some("3".to_string())),
            ("assigned_to_id".to_string(), None, Some("8".to_string())),
        ]
    );
}

#[test]
fn update_clears_assignee_and_records_other_fields() {
    let uc = UpdateIssueUseCase::new();
    let mut assigned = issue(1, 1);
    assigned.assigned_to_id = Some(-5);
    let mut dto = no_update();
    dto.assigned_to_id = Some(0);
    dto.description = Some("   ".to_string());
    dto.is_private = Some(true);
    dto.due_date = Some("2026-04-01".to_string());
    dto.start_date = Some("2026-02-15".to_string());
    assert_eq!(uc.assignee_to_look_up(&assigned, &dto), None);
    let (update, details) = uc.plan(&assigned, &dto, &found_everything()).unwrap();
    assert_eq!(update.assigned_to_id, Some(None));
    assert_eq!(update.description, Some("   ".to_string()));
    assert_eq!(update.is_private, Some(true));
    assert_eq!(update.due_date, Some(Some("2026-04-01".to_string())));
    assert_eq!(update.start_date, Some(Some("2026-02-15".to_string())));
    assert_eq!(update.category_id, None);
    assert_eq!(update.parent_id, None);
    assert_eq!(
        changes(&details),
        vec![
            ("description".to_string(), Some("Description".to_string()), None),
            ("assigned_to_id".to_string(), Some("-5".to_string()), None),
            ("is_private".to_string(), Some("false".to_string()), Some("true".to_string())),
            (
                "due_date".to_string(),
                Some("2026-03-01".to_string()),
                Some("2026-04-01".to_string())
            ),
            ("start_date".to_string(), None, Some("2026-02-15".to_string())),
        ]
    );
}

#[test]
fn update_with_notes_only_records_no_change() {
    let uc = UpdateIssueUseCase::new();
    let mut dto = no_update();
    dto.notes = Some("Just a comment".to_string());
    dto.private_notes = true;
    dto.subject = Some(" Test Issue ".to_string());
    assert!(uc.check_has_changes(&dto).is_ok());
    let (update, details) = uc.plan(&issue(1, 1), &dto, &found_everything()).unwrap();
    assert_eq!(update.subject, None);
    assert!(details.is_empty());
    assert!(uc.needs_journal(&dto.notes, 0));
    assert!(!uc.needs_journal(&Some("  ".to_string()), 0));
    assert!(uc.needs_journal(&None, 1));
    let journal = uc.build_journal(1, 4, Some(" \t".to_string()), true);
    assert_eq!(journal.notes, None);
    assert!(journal.private_notes);
    assert_eq!(journal.user_id, 4);
}

#[test]
fn create_issue_rules() {
    let uc = CreateIssueUseCase::new();
    let dto = new_issue_dto();
    assert!(uc.validate(&dto).is_ok());
    let err = uc.require_project(None).unwrap_err();
    assert!(matches!(err, ApplicationError::Validation(_)));
    assert_eq!(err.message(), "Project not found");
    let err = uc
        .check_permission(&current(3, false), false, &project(1, false))
        .unwrap_err();
    assert_eq!(err.message(), "You don't have permission to create issues in this project");
    assert!(uc.check_permission(&current(3, false), false, &project(1, true)).is_ok());
    assert!(uc.check_permission(&current(3, false), true, &project(1, false)).is_ok());
    assert!(uc.check_permission(&current(3, true), false, &project(1, false)).is_ok());
    assert_eq!(uc.require_tracker(None).unwrap_err().message(), "Tracker not found");
    assert_eq!(
        uc.check_tracker_available(4, &vec![1, 2]).unwrap_err().message(),
        "Tracker is not available in this project"
    );
    let tracker = Tracker {
        id: 1,
        name: "Bug".to_string(),
        default_status_id: 7,
    };
    assert_eq!(uc.status_to_use(&dto, &tracker), 7);
    assert_eq!(uc.priority_to_use(&dto), DEFAULT_PRIORITY_ID);
    assert_eq!(DEFAULT_PRIORITY_ID, 2);
    assert_eq!(uc.check_status_found(false).unwrap_err().message(), "Status not found");
    assert_eq!(uc.check_assignee(&dto, false).unwrap_err().message(), "Assignee not found");
    let mut child = new_issue_dto();
    child.parent_id = Some(10);
    assert_eq!(uc.check_parent(&child, &None).unwrap_err().message(), "Parent issue not found");
    assert_eq!(
        uc.check_parent(&child, &Some(issue(10, 2))).unwrap_err().message(),
        "Parent issue must be in the same project"
    );
    assert!(uc.check_parent(&child, &Some(issue(10, 1))).is_ok());
    let n = uc.build_new_issue(&dto, 7, 2, 3);
    assert_eq!(n.subject, "New issue");
    assert_eq!(n.description, None);
    assert_eq!(n.status_id, 7);
    assert_eq!(n.author_id, 3);
    assert_eq!(n.assigned_to_id, Some(5));
    assert_eq!(n.start_date, Some("2026-02-01".to_string()));
    assert!(n.is_private);
    let mut described = new_issue_dto();
    described.description = Some("  Steps  ".to_string());
    assert_eq!(uc.build_new_issue(&described, 1, 2, 3).description, Some("Steps".to_string()));
}

#[test]
fn delete_issue_rules() {
    let uc = DeleteIssueUseCase::new();
    let err = uc.require_issue(None).unwrap_err();
    assert!(matches!(err, ApplicationError::NotFound(_)));
    assert_eq!(err.message(), "Issue not found");
    assert!(uc.check_permission(&current(1, true), false).is_ok());
    assert!(uc.check_permission(&current(2, false), true).is_ok());
    let err = uc.check_permission(&current(2, false), false).unwrap_err();
    assert!(matches!(err, ApplicationError::Forbidden(_)));
    let err = uc.check_no_subtasks(&vec![issue(2, 1)]).unwrap_err();
    assert_eq!(
        err.to_string(),
        "Validation failed: Cannot delete an issue with subtasks. Delete subtasks first."
    );
    assert!(uc.check_no_subtasks(&vec![]).is_ok());
    assert_eq!(
        uc.deletion_steps(),
        vec![
            DeletionStep::Relations,
            DeletionStep::Journals,
            DeletionStep::Attachments,
            DeletionStep::Issue,
        ]
    );
}

#[test]
fn include_options_are_parsed_from_a_list() {
    assert_eq!(
        IncludeOption::parse(Some("journals, attachments,bogus,,children ")),
        vec![IncludeOption::Journals, IncludeOption::Attachments, IncludeOption::Children]
    );
    assert_eq!(
        IncludeOption::parse(Some("relations,watchers,allowed_statuses")),
        vec![
            IncludeOption::Relations,
            IncludeOption::Watchers,
            IncludeOption::AllowedStatuses
        ]
    );
    assert_eq!(IncludeOption::parse(Some("")), vec![]);
    assert_eq!(IncludeOption::parse(None), vec![]);
    assert_eq!(IncludeOption::parse(Some("Journals")), vec![]);
}

#[test]
fn issue_details_fall_back_to_ids() {
    let uc = GetIssueUseCase::new("http://localhost".to_string());
    let mut i = issue(4, 9);
    i.assigned_to_id = Some(8);
    let d = uc.describe(&i, &None, &None, &None, &None, &None, &None);
    assert_eq!(d.project.name, "Project 9");
    assert_eq!(d.tracker.name, "Tracker 1");
    assert_eq!(d.status.name, "Status 1");
    assert!(!d.status.is_closed);
    assert_eq!(d.priority.name, "Priority 2");
    assert_eq!(d.author.name, "User 2");
    assert!(d.assigned_to.is_none());
    let priority = Some(Enumeration {
        id: 2,
        name: "Normal".to_string(),
        is_default: true,
        active: true,
    });
    let d = uc.describe(
        &i,
        &Some(project(9, true)),
        &Some(Tracker {
            id: 1,
            name: "Bug".to_string(),
            default_status_id: 1,
        }),
        &Some(status(1, false)),
        &priority,
        &Some(person(2, "Ann", "Lee")),
        &Some(person(8, "Bob", "Kay")),
    );
    assert_eq!(d.tracker.name, "Bug");
    assert_eq!(d.priority.name, "Normal");
    assert_eq!(d.author.name, "Ann Lee");
    assert_eq!(d.assigned_to.unwrap().name, "Bob Kay");
    assert_eq!(d.due_date, Some("2026-03-01".to_string()));
    assert!(uc.includes(&vec![IncludeOption::Journals], IncludeOption::Journals));
    assert!(!uc.includes(&vec![IncludeOption::Journals], IncludeOption::Children));
}

#[test]
fn issue_visibility() {
    let uc = GetIssueUseCase::new("http://localhost".to_string());
    let i = issue(1, 3);
    assert!(uc.check_visibility(&current(1, true), &i, &None, &vec![]).is_ok());
    let err = uc.check_visibility(&current(5, false), &i, &None, &vec![]).unwrap_err();
    assert_eq!(err.message(), "Project 3 not found");
    assert!(uc
        .check_visibility(&current(5, false), &i, &Some(project(3, true)), &vec![])
        .is_ok());
    assert!(uc
        .check_visibility(&current(5, false), &i, &Some(project(3, false)), &vec![1, 3])
        .is_ok());
    let err = uc
        .check_visibility(&current(5, false), &i, &Some(project(3, false)), &vec![1])
        .unwrap_err();
    assert_eq!(err.message(), "You don't have permission to view this issue");
}

#[test]
fn journals_hide_private_notes_from_non_admins() {
    let entry = |id: i32, private: bool| Journal {
        id,
        user_id: 2,
        notes: Some(format!("note {}", id)),
        private_notes: private,
        created_on: "2026-01-01T00:00:00+00:00".to_string(),
        updated_on: None,
    };
    let uc = ListJournalsUseCase::new();
    let shown = uc.visible_journals(
        vec![entry(1, false), entry(2, true), entry(3, false)],
        &current(5, false),
    );
    assert_eq!(shown.iter().map(|j| j.id).collect::<Vec<_>>(), vec![1, 3]);
    let shown = uc.visible_journals(vec![entry(1, false), entry(2, true)], &current(5, true));
    assert_eq!(shown.len(), 2);
    let g = GetIssueUseCase::new("http://x".to_string());
    let r = g.journal_response(
        entry(9, false),
        &None,
        vec![JournalDetail {
            property: "attr".to_string(),
            prop_key: "status_id".to_string(),
            old_value: Some("1".to_string()),
            value: Some("2".to_string()),
        }],
    );
    assert_eq!(r.user.name, "User 2");
    assert_eq!(r.details.len(), 1);
    assert_eq!(r.details[0].name, "status_id");
    assert_eq!(r.details[0].new_value, Some("2".to_string()));
    let d = JournalDetailResponse::from(JournalDetail {
        property: "attr".to_string(),
        prop_key: "subject".to_string(),
        old_value: None,
        value: Some("x".to_string()),
    });
    assert_eq!(d.property, "attr");
    assert_eq!(d.old_value, None);
    let err = uc.require_issue(12, None).unwrap_err();
    assert_eq!(err.message(), "Issue 12 not found");
}

#[test]
fn relations_and_children_are_shown() {
    let g = GetIssueUseCase::new("http://x".to_string());
    let r = g.relation_response(IssueRelation {
        id: 1,
        issue_from_id: 4,
        issue_to_id: 5,
        relation_type: "precedes".to_string(),
        delay: Some(2),
    });
    assert_eq!((r.issue_id, r.issue_to_id, r.delay), (4, 5, Some(2)));
    let c = g.child_summary(&issue(6, 1), &None);
    assert_eq!(c.tracker.name, "Tracker 1");
    assert_eq!(c.subject, "Test Issue");
}

#[test]
fn list_issues_filters_and_access() {
    let uc = ListIssuesUseCase::new();
    assert_eq!(
        uc.resolve_assignee_filter(Some("me".to_string()), &current(42, false)),
        Some("42".to_string())
    );
    assert_eq!(
        uc.resolve_assignee_filter(Some("7".to_string()), &current(42, false)),
        Some("7".to_string())
    );
    assert_eq!(uc.resolve_assignee_filter(None, &current(42, false)), None);
    assert_eq!(uc.project_to_check(Some(3), &current(1, true)), None);
    assert_eq!(uc.project_to_check(Some(3), &current(1, false)), Some(3));
    let err = uc
        .check_project_access(&current(1, false), 3, &Some(project(3, false)), &vec![])
        .unwrap_err();
    assert_eq!(err.message(), "You don't have access to this project");
    assert_eq!(uc.description_text(&None), "");
    assert_eq!(uc.description_text(&Some("d".to_string())), "d");
}

#[test]
fn recorded_changes_follow_the_fields_that_change() {
    let uc = UpdateIssueUseCase::new();
    let mut dto = no_update();
    dto.subject = Some("Other".to_string());
    dto.status_id = Some(3);
    dto.priority_id = Some(2);
    dto.tracker_id = Some(2);
    dto.done_ratio = Some(0);
    dto.is_private = Some(true);
    dto.start_date = Some("2026-05-05".to_string());
    dto.due_date = Some("2026-03-01".to_string());
    let (update, details) = uc.plan(&issue(1, 1), &dto, &found_everything()).unwrap();
    let keys: Vec<String> = details.iter().map(|d| d.prop_key.clone()).collect();
    assert_eq!(keys, vec!["subject", "status_id", "tracker_id", "is_private", "start_date"]);
    assert!(update.subject.is_some());
    assert!(update.status_id.is_some());
    assert!(update.priority_id.is_none());
    assert!(update.tracker_id.is_some());
    assert!(update.done_ratio.is_none());
    assert!(update.is_private.is_some());
    assert!(update.due_date.is_none());
    assert!(update.start_date.is_some());
    assert!(details.iter().all(|d| d.old_value != d.value));
}

#[test]
fn update_parent_must_be_in_the_same_project() {
    let uc = UpdateIssueUseCase::new();
    let mut dto = no_update();
    dto.parent_id = Some(10);
    assert_eq!(uc.parent_to_look_up(&issue(1, 1), &dto), Some(10));
    let mut lookups = found_everything();
    lookups.parent_project_id = Some(2);
    let err = uc.plan(&issue(1, 1), &dto, &lookups).unwrap_err();
    assert!(matches!(err, ApplicationError::Validation(_)));
    assert_eq!(err.message(), "Parent issue must be in the same project");
    lookups.parent_project_id = None;
    assert_eq!(uc.plan(&issue(1, 1), &dto, &lookups).unwrap_err().message(), "Parent issue not found");
    lookups.parent_project_id = Some(1);
    let (update, details) = uc.plan(&issue(1, 1), &dto, &lookups).unwrap();
    assert_eq!(update.parent_id, Some(Some(10)));
    assert_eq!(
        changes(&details),
        vec![("parent_id".to_string(), None, Some("10".to_string()))]
    );
    let mut child = issue(1, 1);
    child.parent_id = Some(10);
    assert_eq!(uc.parent_to_look_up(&child, &dto), Some(10));
    let mut lookups = UpdateLookups {
        status: None,
        priority_found: false,
        tracker_found: false,
        project_tracker_ids: vec![],
        assignee_found: false,
        parent_project_id: Some(2),
    };
    assert_eq!(
        uc.plan(&child, &dto, &lookups).unwrap_err().message(),
        "Parent issue must be in the same project"
    );
    lookups.parent_project_id = Some(1);
    let (update, details) = uc.plan(&child, &dto, &lookups).unwrap();
    assert_eq!(update.parent_id, None);
    assert!(details.is_empty());
}
