use crate::domain::{
    ClosedOnChange, CurrentUser, Issue, IssueStatus, IssueUpdate, NewJournal, NewJournalDetail,
};
use crate::dto::issue::{has_notes, update_has_changes, update_issue_problems};
use crate::dto::UpdateIssueDto;
use crate::errors::{literal, ApplicationError, ErrorKind, Refusal, refusal_of};
use crate::text::{
    bool_text, bool_to_string, contains_i32, decimal, i32_to_string, is_blank, is_blank_chars,
    str_eq, trim, trim_chars,
};
use crate::use_cases::access::{issue_not_found, issue_not_found_error};
use crate::use_cases::attachment::get_attachment::opt_view;
use crate::use_cases::flow::{check, check_after, check_when, follows, found_refusal, proceed, Decision, Next};
use crate::use_cases::member::add_member::{problems_error, problems_refusal};
use vstd::prelude::*;

verus! {

/// Changes issues, recording each changed field in the issue's history.
#[derive(Debug)]
pub struct UpdateIssueUseCase {}

/// What was looked up to check an update: the new status, whether the new priority, the new
/// tracker and the new assignee exist, the trackers of the issue's project, and the project
/// of the given parent issue (none when that issue was not found). Each is read only where the
/// matching `*_to_look_up` method of `UpdateIssueUseCase` asks for it.
#[derive(Debug)]
pub struct UpdateLookups {
    pub status: Option<IssueStatus>,
    pub priority_found: bool,
    pub tracker_found: bool,
    pub project_tracker_ids: Vec<i32>,
    pub assignee_found: bool,
    pub parent_project_id: Option<i32>,
}

/// A recorded change: the field's key, its old text and its new text.
pub type ChangeView = (Seq<char>, Option<Seq<char>>, Option<Seq<char>>);

/// The change that a history detail records.
pub open spec fn detail_view(d: NewJournalDetail) -> ChangeView {
    (d.prop_key@, opt_view(d.old_value), opt_view(d.value))
}

/// The changes that history details record, in order.
pub open spec fn details_view(ds: Seq<NewJournalDetail>) -> Seq<ChangeView> {
    ds.map_values(|d: NewJournalDetail| detail_view(d))
}

/// Whether each detail records a change of an attribute and belongs to no entry yet.
pub open spec fn fresh_attr_details(ds: Seq<NewJournalDetail>) -> bool {
    forall|k: int| 0 <= k < ds.len() ==> (#[trigger] ds[k]).journal_id == 0 && ds[k].property@ == "attr"@
}

/// The change, when there is one.
pub open spec fn change_if(
    changed: bool,
    key: Seq<char>,
    before: Option<Seq<char>>,
    after: Option<Seq<char>>,
) -> Seq<ChangeView> {
    if changed {
        seq![(key, before, after)]
    } else {
        Seq::empty()
    }
}

/// The decimal text of an id or a number.
pub open spec fn id_text(n: i32) -> Option<Seq<char>> {
    Some(decimal(n as int))
}

/// The decimal text of an optional id.
pub open spec fn opt_id_text(o: Option<i32>) -> Option<Seq<char>> {
    match o {
        Some(n) => Some(decimal(n as int)),
        None => None,
    }
}

/// The new subject, trimmed, when one is given and it differs from the issue's.
pub open spec fn subject_after(issue: Issue, dto: UpdateIssueDto) -> Option<Seq<char>> {
    match dto.subject {
        Some(s) => if trim_chars(s@) != issue.subject@ {
            Some(trim_chars(s@))
        } else {
            None
        },
        None => None,
    }
}

/// The description as an issue holds it: none when it is blank.
pub open spec fn description_shown(d: Seq<char>) -> Option<Seq<char>> {
    if is_blank_chars(d) {
        None
    } else {
        Some(d)
    }
}

/// Whether a description is given and, as an issue holds it, differs from the issue's.
pub open spec fn description_changes(issue: Issue, dto: UpdateIssueDto) -> bool {
    dto.description matches Some(d) && description_shown(d@) != opt_view(issue.description)
}

/// Whether a status is given and differs from the issue's.
pub open spec fn status_changes(issue: Issue, dto: UpdateIssueDto) -> bool {
    dto.status_id matches Some(s) && s != issue.status_id
}

/// Whether a priority is given and differs from the issue's.
pub open spec fn priority_changes(issue: Issue, dto: UpdateIssueDto) -> bool {
    dto.priority_id matches Some(p) && p != issue.priority_id
}

/// Whether a tracker is given and differs from the issue's.
pub open spec fn tracker_changes(issue: Issue, dto: UpdateIssueDto) -> bool {
    dto.tracker_id matches Some(t) && t != issue.tracker_id
}

/// The assignee that a requested id stands for: none for zero or less.
pub open spec fn assignee_of(requested: i32) -> Option<i32> {
    if requested > 0 {
        Some(requested)
    } else {
        None
    }
}

/// Whether an assignee is given and differs from the issue's.
pub open spec fn assignee_changes(issue: Issue, dto: UpdateIssueDto) -> bool {
    dto.assigned_to_id matches Some(a) && assignee_of(a) != issue.assigned_to_id
}

/// Whether a completion ratio is given and differs from the issue's.
pub open spec fn done_ratio_changes(issue: Issue, dto: UpdateIssueDto) -> bool {
    dto.done_ratio matches Some(r) && r != issue.done_ratio
}

/// Whether privacy is given and differs from the issue's.
pub open spec fn is_private_changes(issue: Issue, dto: UpdateIssueDto) -> bool {
    dto.is_private matches Some(p) && p != issue.is_private
}

/// Whether a due date is given and differs from the issue's.
pub open spec fn due_date_changes(issue: Issue, dto: UpdateIssueDto) -> bool {
    dto.due_date matches Some(d) && opt_view(issue.due_date) != Some(d@)
}

/// Whether a start date is given and differs from the issue's.
pub open spec fn start_date_changes(issue: Issue, dto: UpdateIssueDto) -> bool {
    dto.start_date matches Some(d) && opt_view(issue.start_date) != Some(d@)
}

/// Whether a parent issue is given and differs from the issue's.
pub open spec fn parent_changes(issue: Issue, dto: UpdateIssueDto) -> bool {
    dto.parent_id matches Some(p) && issue.parent_id != Some(p)
}

/// The changes that an update records in the issue's history, in this order: subject,
/// description, status, priority, tracker, assignee, completion ratio, privacy, due date,
/// start date and parent issue; each with its old and new text.
pub open spec fn recorded_changes(issue: Issue, dto: UpdateIssueDto) -> Seq<ChangeView> {
    change_if(
        subject_after(issue, dto) is Some,
        "subject"@,
        Some(issue.subject@),
        subject_after(issue, dto),
    ) + change_if(
        description_changes(issue, dto),
        "description"@,
        opt_view(issue.description),
        description_shown(dto.description->0@),
    ) + change_if(
        status_changes(issue, dto),
        "status_id"@,
        id_text(issue.status_id),
        id_text(dto.status_id->0),
    ) + change_if(
        priority_changes(issue, dto),
        "priority_id"@,
        id_text(issue.priority_id),
        id_text(dto.priority_id->0),
    ) + change_if(
        tracker_changes(issue, dto),
        "tracker_id"@,
        id_text(issue.tracker_id),
        id_text(dto.tracker_id->0),
    ) + change_if(
        assignee_changes(issue, dto),
        "assigned_to_id"@,
        opt_id_text(issue.assigned_to_id),
        opt_id_text(assignee_of(dto.assigned_to_id->0)),
    ) + change_if(
        done_ratio_changes(issue, dto),
        "done_ratio"@,
        id_text(issue.done_ratio),
        id_text(dto.done_ratio->0),
    ) + change_if(
        is_private_changes(issue, dto),
        "is_private"@,
        Some(bool_text(issue.is_private)),
        Some(bool_text(dto.is_private->0)),
    ) + change_if(
        due_date_changes(issue, dto),
        "due_date"@,
        opt_view(issue.due_date),
        Some(dto.due_date->0@),
    ) + change_if(
        start_date_changes(issue, dto),
        "start_date"@,
        opt_view(issue.start_date),
        Some(dto.start_date->0@),
    ) + change_if(
        parent_changes(issue, dto),
        "parent_id"@,
        opt_id_text(issue.parent_id),
        id_text(dto.parent_id->0),
    )
}

/// What happens to the closing time when an issue moves to a status: it closes now when the
/// status is closed and the issue was open; it is cleared when the status is open.
pub open spec fn closing_change(now_closed: bool, was_closed: bool) -> ClosedOnChange {
    if now_closed && !was_closed {
        ClosedOnChange::CloseNow
    } else if !now_closed {
        ClosedOnChange::Reopen
    } else {
        ClosedOnChange::Keep
    }
}

/// The view of an optional optional string.
pub open spec fn opt_opt_view(o: Option<Option<String>>) -> Option<Option<Seq<char>>> {
    match o {
        Some(inner) => Some(opt_view(inner)),
        None => None,
    }
}

/// Whether the update sets exactly the fields that change, to their new values; the closing
/// time moves as `closing_change` says when the status changes.
pub open spec fn update_planned(
    u: IssueUpdate,
    issue: Issue,
    dto: UpdateIssueDto,
    new_status: Option<IssueStatus>,
) -> bool {
    &&& opt_view(u.subject) == subject_after(issue, dto)
    &&& opt_view(u.description) == (if description_changes(issue, dto) {
        Some(dto.description->0@)
    } else {
        None
    })
    &&& u.status_id == (if status_changes(issue, dto) {
        dto.status_id
    } else {
        None
    })
    &&& u.priority_id == (if priority_changes(issue, dto) {
        dto.priority_id
    } else {
        None
    })
    &&& u.tracker_id == (if tracker_changes(issue, dto) {
        dto.tracker_id
    } else {
        None
    })
    &&& u.assigned_to_id == (if assignee_changes(issue, dto) {
        Some(assignee_of(dto.assigned_to_id->0))
    } else {
        None
    })
    &&& u.category_id is None
    &&& u.parent_id == (if parent_changes(issue, dto) {
        Some(dto.parent_id)
    } else {
        None
    })
    &&& u.done_ratio == (if done_ratio_changes(issue, dto) {
        dto.done_ratio
    } else {
        None
    })
    &&& u.is_private == (if is_private_changes(issue, dto) {
        dto.is_private
    } else {
        None
    })
    &&& opt_opt_view(u.due_date) == (if due_date_changes(issue, dto) {
        Some(Some(dto.due_date->0@))
    } else {
        None
    })
    &&& opt_opt_view(u.start_date) == (if start_date_changes(issue, dto) {
        Some(Some(dto.start_date->0@))
    } else {
        None
    })
    &&& u.closed_on == (if status_changes(issue, dto) {
        closing_change(new_status->0.is_closed, issue.closed_on is Some)
    } else {
        ClosedOnChange::Keep
    })
}

/// The refusal of an update by what was looked up, checked in this order: an unknown status,
/// an unknown priority, an unknown tracker, a tracker that the project does not use, an
/// unknown assignee, an unknown parent issue, a parent issue in another project. Status,
/// priority, tracker and assignee are checked only when they change, and clearing the
/// assignee needs no check; a given parent is checked whether or not it changes.
pub open spec fn update_lookup_refusal(
    issue: Issue,
    dto: UpdateIssueDto,
    lookups: UpdateLookups,
) -> Option<Refusal> {
    if status_changes(issue, dto) && lookups.status is None {
        Some((ErrorKind::Validation, "Status is invalid"@))
    } else if priority_changes(issue, dto) && !lookups.priority_found {
        Some((ErrorKind::Validation, "Priority is invalid"@))
    } else if tracker_changes(issue, dto) && !lookups.tracker_found {
        Some((ErrorKind::Validation, "Tracker is invalid"@))
    } else if tracker_changes(issue, dto) && !lookups.project_tracker_ids@.contains(
        dto.tracker_id->0,
    ) {
        Some((ErrorKind::Validation, "Tracker is not available in this project"@))
    } else if assignee_changes(issue, dto) && assignee_of(dto.assigned_to_id->0) is Some
        && !lookups.assignee_found {
        Some((ErrorKind::Validation, "Assignee is invalid"@))
    } else if dto.parent_id is Some && lookups.parent_project_id is None {
        Some((ErrorKind::Validation, "Parent issue not found"@))
    } else if dto.parent_id is Some && lookups.parent_project_id != Some(issue.project_id) {
        Some((ErrorKind::Validation, "Parent issue must be in the same project"@))
    } else {
        None
    }
}

/// The refusal of a user who may not edit the issue: one who is neither an administrator nor
/// a member of the issue's project.
pub open spec fn edit_refusal(admin: bool, is_member: bool) -> Option<Refusal> {
    if admin || is_member {
        None
    } else {
        Some((ErrorKind::Forbidden, "You don't have permission to edit this issue"@))
    }
}

/// Adds a change of an attribute to the details of an entry yet to be made.
fn push_change(
    details: &mut Vec<NewJournalDetail>,
    key: &str,
    before: Option<String>,
    after: Option<String>,
)
    ensures
        details_view(final(details)@) == details_view(old(details)@).push(
            (key@, opt_view(before), opt_view(after)),
        ),
        fresh_attr_details(old(details)@) ==> fresh_attr_details(final(details)@),
{
    let d = NewJournalDetail {
        journal_id: 0,
        property: literal("attr"),
        prop_key: literal(key),
        old_value: before,
        value: after,
    };
    details.push(d);
    assert(details_view(details@) =~= details_view(old(details)@).push(
        (key@, opt_view(before), opt_view(after)),
    ));
}

/// Whether two optional strings hold the same text.
fn same_text(a: &Option<String>, b: &Option<String>) -> (r: bool)
    ensures
        r == (opt_view(*a) == opt_view(*b)),
{
    match (a, b) {
        (Some(x), Some(y)) => str_eq(x.as_str(), y.as_str()),
        (None, None) => true,
        _ => false,
    }
}

/// Whether two optional ids are equal.
fn same_id(a: Option<i32>, b: Option<i32>) -> (r: bool)
    ensures
        r == (a == b),
{
    match (a, b) {
        (Some(x), Some(y)) => x == y,
        (None, None) => true,
        _ => false,
    }
}

/// The decimal text of an optional id.
fn opt_id_string(o: Option<i32>) -> (r: Option<String>)
    ensures
        opt_view(r) == opt_id_text(o),
{
    match o {
        Some(n) => Some(i32_to_string(n)),
        None => None,
    }
}

/// Checks what was looked up for an update, in the order of `update_lookup_refusal`.
fn check_lookups(issue: &Issue, dto: &UpdateIssueDto, lookups: &UpdateLookups) -> (r: Result<
    (),
    ApplicationError,
>)
    ensures
        refusal_of(r) == update_lookup_refusal(*issue, *dto, *lookups),
{
    if let Some(s) = dto.status_id {
        if s != issue.status_id && lookups.status.is_none() {
            return Err(ApplicationError::Validation(literal("Status is invalid")));
        }
    }
    if let Some(p) = dto.priority_id {
        if p != issue.priority_id && !lookups.priority_found {
            return Err(ApplicationError::Validation(literal("Priority is invalid")));
        }
    }
    if let Some(t) = dto.tracker_id {
        if t != issue.tracker_id {
            if !lookups.tracker_found {
                return Err(ApplicationError::Validation(literal("Tracker is invalid")));
            }
            if !contains_i32(&lookups.project_tracker_ids, t) {
                return Err(
                    ApplicationError::Validation(literal("Tracker is not available in this project")),
                );
            }
        }
    }
    if let Some(a) = dto.assigned_to_id {
        let wanted: Option<i32> = if a > 0 {
            Some(a)
        } else {
            None
        };
        if !same_id(wanted, issue.assigned_to_id) && a > 0 && !lookups.assignee_found {
            return Err(ApplicationError::Validation(literal("Assignee is invalid")));
        }
    }
    if dto.parent_id.is_some() {
        match lookups.parent_project_id {
            None => {
                return Err(ApplicationError::Validation(literal("Parent issue not found")));
            },
            Some(pp) => if pp != issue.project_id {
                return Err(
                    ApplicationError::Validation(literal("Parent issue must be in the same project")),
                );
            },
        }
    }
    Ok(())
}

/// Records the change of the parent issue, and returns the parent to store.
fn plan_parent_change(
    issue: &Issue,
    dto: &UpdateIssueDto,
    details: &mut Vec<NewJournalDetail>,
) -> (r: Option<Option<i32>>)
    ensures
        details_view(final(details)@) == details_view(old(details)@) + change_if(
            parent_changes(*issue, *dto),
            "parent_id"@,
            opt_id_text(issue.parent_id),
            id_text(dto.parent_id->0),
        ),
        fresh_attr_details(old(details)@) ==> fresh_attr_details(final(details)@),
        r == (if parent_changes(*issue, *dto) {
            Some(dto.parent_id)
        } else {
            None
        }),
{
    let ghost s0 = details_view(details@);
    let mut parent: Option<Option<i32>> = None;
    if let Some(p) = dto.parent_id {
        if !same_id(Some(p), issue.parent_id) {
            push_change(details, "parent_id", opt_id_string(issue.parent_id), Some(i32_to_string(p)));
            parent = Some(Some(p));
        }
    }
    assert(details_view(details@) =~= s0 + change_if(
        parent_changes(*issue, *dto),
        "parent_id"@,
        opt_id_text(issue.parent_id),
        id_text(dto.parent_id->0),
    ));
    parent
}

/// Records the changes of the text fields: subject and description. Returns the new subject and
/// the new description to store.
fn plan_text_changes(
    issue: &Issue,
    dto: &UpdateIssueDto,
    details: &mut Vec<NewJournalDetail>,
) -> (r: (Option<String>, Option<String>))
    ensures
        details_view(final(details)@) == details_view(old(details)@) + change_if(
            subject_after(*issue, *dto) is Some,
            "subject"@,
            Some(issue.subject@),
            subject_after(*issue, *dto),
        ) + change_if(
            description_changes(*issue, *dto),
            "description"@,
            opt_view(issue.description),
            description_shown(dto.description->0@),
        ),
        fresh_attr_details(old(details)@) ==> fresh_attr_details(final(details)@),
        opt_view(r.0) == subject_after(*issue, *dto),
        opt_view(r.1) == (if description_changes(*issue, *dto) {
            Some(dto.description->0@)
        } else {
            None
        }),
{
    let ghost start = details_view(details@);
    let mut subject: Option<String> = None;
    if let Some(s) = &dto.subject {
        let t = trim(s.as_str());
        if !str_eq(t.as_str(), issue.subject.as_str()) {
            push_change(details, "subject", Some(issue.subject.clone()), Some(t.clone()));
            subject = Some(t);
        }
    }
    let ghost mid = details_view(details@);
    assert(mid =~= start + change_if(
        subject_after(*issue, *dto) is Some,
        "subject"@,
        Some(issue.subject@),
        subject_after(*issue, *dto),
    ));
    let mut description: Option<String> = None;
    if let Some(d) = &dto.description {
        let shown: Option<String> = if is_blank(d.as_str()) {
            None
        } else {
            Some(d.clone())
        };
        if !same_text(&shown, &issue.description) {
            push_change(details, "description", issue.description.clone(), shown);
            description = Some(d.clone());
        }
    }
    assert(details_view(details@) =~= mid + change_if(
        description_changes(*issue, *dto),
        "description"@,
        opt_view(issue.description),
        description_shown(dto.description->0@),
    ));
    (subject, description)
}

/// Records the changes of the fields that hold ids: status, priority, tracker and assignee.
/// Returns the new status, priority, tracker and assignee to store.
fn plan_id_changes(
    issue: &Issue,
    dto: &UpdateIssueDto,
    details: &mut Vec<NewJournalDetail>,
) -> (r: (Option<i32>, Option<i32>, Option<i32>, Option<Option<i32>>))
    ensures
        details_view(final(details)@) == details_view(old(details)@) + change_if(
            status_changes(*issue, *dto),
            "status_id"@,
            id_text(issue.status_id),
            id_text(dto.status_id->0),
        ) + change_if(
            priority_changes(*issue, *dto),
            "priority_id"@,
            id_text(issue.priority_id),
            id_text(dto.priority_id->0),
        ) + change_if(
            tracker_changes(*issue, *dto),
            "tracker_id"@,
            id_text(issue.tracker_id),
            id_text(dto.tracker_id->0),
        ) + change_if(
            assignee_changes(*issue, *dto),
            "assigned_to_id"@,
            opt_id_text(issue.assigned_to_id),
            opt_id_text(assignee_of(dto.assigned_to_id->0)),
        ),
        fresh_attr_details(old(details)@) ==> fresh_attr_details(final(details)@),
        r.0 == (if status_changes(*issue, *dto) {
            dto.status_id
        } else {
            None
        }),
        r.1 == (if priority_changes(*issue, *dto) {
            dto.priority_id
        } else {
            None
        }),
        r.2 == (if tracker_changes(*issue, *dto) {
            dto.tracker_id
        } else {
            None
        }),
        r.3 == (if assignee_changes(*issue, *dto) {
            Some(assignee_of(dto.assigned_to_id->0))
        } else {
            None
        }),
{
    let ghost s0 = details_view(details@);
    let mut status: Option<i32> = None;
    if let Some(s) = dto.status_id {
        if s != issue.status_id {
            push_change(
                details,
                "status_id",
                Some(i32_to_string(issue.status_id)),
                Some(i32_to_string(s)),
            );
            status = Some(s);
        }
    }
    let ghost s1 = details_view(details@);
    assert(s1 =~= s0 + change_if(
        status_changes(*issue, *dto),
        "status_id"@,
        id_text(issue.status_id),
        id_text(dto.status_id->0),
    ));
    let mut priority: Option<i32> = None;
    if let Some(p) = dto.priority_id {
        if p != issue.priority_id {
            push_change(
                details,
                "priority_id",
                Some(i32_to_string(issue.priority_id)),
                Some(i32_to_string(p)),
            );
            priority = Some(p);
        }
    }
    let ghost s2 = details_view(details@);
    assert(s2 =~= s1 + change_if(
        priority_changes(*issue, *dto),
        "priority_id"@,
        id_text(issue.priority_id),
        id_text(dto.priority_id->0),
    ));
    let mut tracker: Option<i32> = None;
    if let Some(t) = dto.tracker_id {
        if t != issue.tracker_id {
            push_change(
                details,
                "tracker_id",
                Some(i32_to_string(issue.tracker_id)),
                Some(i32_to_string(t)),
            );
            tracker = Some(t);
        }
    }
    let ghost s3 = details_view(details@);
    assert(s3 =~= s2 + change_if(
        tracker_changes(*issue, *dto),
        "tracker_id"@,
        id_text(issue.tracker_id),
        id_text(dto.tracker_id->0),
    ));
    let mut assignee: Option<Option<i32>> = None;
    if let Some(a) = dto.assigned_to_id {
        let wanted: Option<i32> = if a > 0 {
            Some(a)
        } else {
            None
        };
        if !same_id(wanted, issue.assigned_to_id) {
            push_change(
                details,
                "assigned_to_id",
                opt_id_string(issue.assigned_to_id),
                opt_id_string(wanted),
            );
            assignee = Some(wanted);
        }
    }
    assert(details_view(details@) =~= s3 + change_if(
        assignee_changes(*issue, *dto),
        "assigned_to_id"@,
        opt_id_text(issue.assigned_to_id),
        opt_id_text(assignee_of(dto.assigned_to_id->0)),
    ));
    (status, priority, tracker, assignee)
}

/// Records the changes of the other fields: completion ratio, privacy, due date and start date.
/// Returns the new values to store.
fn plan_value_changes(
    issue: &Issue,
    dto: &UpdateIssueDto,
    details: &mut Vec<NewJournalDetail>,
) -> (r: (Option<i32>, Option<bool>, Option<Option<String>>, Option<Option<String>>))
    ensures
        details_view(final(details)@) == details_view(old(details)@) + change_if(
            done_ratio_changes(*issue, *dto),
            "done_ratio"@,
            id_text(issue.done_ratio),
            id_text(dto.done_ratio->0),
        ) + change_if(
            is_private_changes(*issue, *dto),
            "is_private"@,
            Some(bool_text(issue.is_private)),
            Some(bool_text(dto.is_private->0)),
        ) + change_if(
            due_date_changes(*issue, *dto),
            "due_date"@,
            opt_view(issue.due_date),
            Some(dto.due_date->0@),
        ) + change_if(
            start_date_changes(*issue, *dto),
            "start_date"@,
            opt_view(issue.start_date),
            Some(dto.start_date->0@),
        ),
        fresh_attr_details(old(details)@) ==> fresh_attr_details(final(details)@),
        r.0 == (if done_ratio_changes(*issue, *dto) {
            dto.done_ratio
        } else {
            None
        }),
        r.1 == (if is_private_changes(*issue, *dto) {
            dto.is_private
        } else {
            None
        }),
        opt_opt_view(r.2) == (if due_date_changes(*issue, *dto) {
            Some(Some(dto.due_date->0@))
        } else {
            None
        }),
        opt_opt_view(r.3) == (if start_date_changes(*issue, *dto) {
            Some(Some(dto.start_date->0@))
        } else {
            None
        }),
{
    let ghost s0 = details_view(details@);
    let mut done_ratio: Option<i32> = None;
    if let Some(v) = dto.done_ratio {
        if v != issue.done_ratio {
            push_change(
                details,
                "done_ratio",
                Some(i32_to_string(issue.done_ratio)),
                Some(i32_to_string(v)),
            );
            done_ratio = Some(v);
        }
    }
    let ghost s1 = details_view(details@);
    assert(s1 =~= s0 + change_if(
        done_ratio_changes(*issue, *dto),
        "done_ratio"@,
        id_text(issue.done_ratio),
        id_text(dto.done_ratio->0),
    ));
    let mut is_private: Option<bool> = None;
    if let Some(p) = dto.is_private {
        if p != issue.is_private {
            push_change(
                details,
                "is_private",
                Some(bool_to_string(issue.is_private)),
                Some(bool_to_string(p)),
            );
            is_private = Some(p);
        }
    }
    let ghost s2 = details_view(details@);
    assert(s2 =~= s1 + change_if(
        is_private_changes(*issue, *dto),
        "is_private"@,
        Some(bool_text(issue.is_private)),
        Some(bool_text(dto.is_private->0)),
    ));
    let mut due_date: Option<Option<String>> = None;
    if let Some(d) = &dto.due_date {
        let wanted: Option<String> = Some(d.clone());
        if !same_text(&wanted, &issue.due_date) {
            push_change(details, "due_date", issue.due_date.clone(), Some(d.clone()));
            due_date = Some(wanted);
        }
    }
    let ghost s3 = details_view(details@);
    assert(s3 =~= s2 + change_if(
        due_date_changes(*issue, *dto),
        "due_date"@,
        opt_view(issue.due_date),
        Some(dto.due_date->0@),
    ));
    let mut start_date: Option<Option<String>> = None;
    if let Some(d) = &dto.start_date {
        let wanted: Option<String> = Some(d.clone());
        if !same_text(&wanted, &issue.start_date) {
            push_change(details, "start_date", issue.start_date.clone(), Some(d.clone()));
            start_date = Some(wanted);
        }
    }
    assert(details_view(details@) =~= s3 + change_if(
        start_date_changes(*issue, *dto),
        "start_date"@,
        opt_view(issue.start_date),
        Some(dto.start_date->0@),
    ));
    (done_ratio, is_private, due_date, start_date)
}

/// Plans an update: refuses it by what was looked up, or gives the changes to store and the
/// history details that record them.
pub fn plan_update(issue: &Issue, dto: &UpdateIssueDto, lookups: &UpdateLookups) -> (r: Result<
    (IssueUpdate, Vec<NewJournalDetail>),
    ApplicationError,
>)
    ensures
        refusal_of(r) == update_lookup_refusal(*issue, *dto, *lookups),
        r matches Ok(p) ==> {
            &&& update_planned(p.0, *issue, *dto, lookups.status)
            &&& details_view(p.1@) == recorded_changes(*issue, *dto)
            &&& fresh_attr_details(p.1@)
        },
{
    match check_lookups(issue, dto, lookups) {
        Err(e) => return Err(e),
        Ok(()) => {},
    }
    let mut details: Vec<NewJournalDetail> = Vec::new();
    assert(details_view(details@) =~= Seq::<ChangeView>::empty());
    let texts = plan_text_changes(issue, dto, &mut details);
    let ids = plan_id_changes(issue, dto, &mut details);
    let values = plan_value_changes(issue, dto, &mut details);
    let parent = plan_parent_change(issue, dto, &mut details);
    let closed_on = match (&ids.0, &lookups.status) {
        (Some(_), Some(st)) => if st.is_closed && issue.closed_on.is_none() {
            ClosedOnChange::CloseNow
        } else if !st.is_closed {
            ClosedOnChange::Reopen
        } else {
            ClosedOnChange::Keep
        },
        _ => ClosedOnChange::Keep,
    };
    let update = IssueUpdate {
        subject: texts.0,
        description: texts.1,
        status_id: ids.0,
        priority_id: ids.1,
        tracker_id: ids.2,
        assigned_to_id: ids.3,
        category_id: None,
        parent_id: parent,
        start_date: values.3,
        due_date: values.2,
        done_ratio: values.0,
        is_private: values.1,
        closed_on,
    };
    Ok((update, details))
}

/// What an update of an issue looks up, in the order it is needed.
#[derive(Debug, Clone, Copy, PartialEq, Eq, Structural)]
pub enum UpdateIssueLookup {
    /// The issue, by its id.
    Issue,
    /// Whether the requester is a member of the issue's project.
    RequesterMembership,
    /// What the changes name: see `UpdateLookups`.
    ChangeLookups,
}

/// What has been looked up to update an issue: `None` where nothing is known yet.
#[derive(Debug)]
pub struct UpdateIssueFacts {
    pub issue: Option<Option<Issue>>,
    pub requester_is_member: Option<bool>,
    pub lookups: Option<UpdateLookups>,
}

/// The refusal of an update that changes nothing.
pub open spec fn no_changes_refusal(dto: UpdateIssueDto) -> Option<Refusal> {
    if update_has_changes(dto) {
        None
    } else {
        Some((ErrorKind::Validation, "No changes provided"@))
    }
}

/// How an update of an issue is decided, check by check: the request's fields; that it
/// changes something; the issue; for a requester who is not an administrator, their
/// membership in the issue's project; what the changes name (`update_lookup_refusal`). The
/// first check that fails answers, and a check waits for what it reads to be looked up.
pub open spec fn update_issue_decision(
    admin: bool,
    issue_id: i32,
    dto: UpdateIssueDto,
    f: UpdateIssueFacts,
) -> Decision<UpdateIssueLookup> {
    check(
        problems_refusal(update_issue_problems(dto)),
        check(
            no_changes_refusal(dto),
            check_after(
                f.issue is Some,
                UpdateIssueLookup::Issue,
                found_refusal(f.issue.unwrap(), issue_not_found(issue_id)),
                check_when(
                    !admin,
                    f.requester_is_member is Some,
                    UpdateIssueLookup::RequesterMembership,
                    edit_refusal(admin, f.requester_is_member.unwrap()),
                    check_after(
                        f.lookups is Some,
                        UpdateIssueLookup::ChangeLookups,
                        update_lookup_refusal(f.issue.unwrap().unwrap(), dto, f.lookups.unwrap()),
                        proceed(),
                    ),
                ),
            ),
        ),
    )
}

/// An update whose fields break their rules, or that changes nothing, is refused before
/// anything is looked up: the answer is the same whatever the issue, the requester and the
/// lookups are.
pub proof fn update_refused_before_lookups(
    admin: bool,
    issue_id: i32,
    dto: UpdateIssueDto,
    f: UpdateIssueFacts,
)
    requires
        problems_refusal(update_issue_problems(dto)) is Some || !update_has_changes(dto),
    ensures
        update_issue_decision(admin, issue_id, dto, f) == Err::<Option<UpdateIssueLookup>, Refusal>(
            match problems_refusal(update_issue_problems(dto)) {
                Some(r) => r,
                None => (ErrorKind::Validation, "No changes provided"@),
            },
        ),
{
}

impl UpdateIssueFacts {
    /// Nothing looked up yet.
    pub fn new() -> (f: Self)
        ensures
            f.issue is None,
            f.requester_is_member is None,
            f.lookups is None,
    {
        UpdateIssueFacts { issue: None, requester_is_member: None, lookups: None }
    }
}

impl UpdateIssueUseCase {
    pub fn new() -> (u: Self) {
        UpdateIssueUseCase {  }
    }

    /// What comes next in updating an issue: what to look up, the refusal, or leave to plan
    /// and store the update.
    pub fn next_step(
        &self,
        current_user: &CurrentUser,
        issue_id: i32,
        dto: &UpdateIssueDto,
        facts: &UpdateIssueFacts,
    ) -> (n: Next<UpdateIssueLookup>)
        ensures
            follows(n, update_issue_decision(current_user.admin, issue_id, *dto, *facts)),
    {
        if let Err(e) = self.validate(dto) {
            return Next::Refuse(e);
        }
        if let Err(e) = self.check_has_changes(dto) {
            return Next::Refuse(e);
        }
        let issue = match &facts.issue {
            None => return Next::Fetch(UpdateIssueLookup::Issue),
            Some(None) => return Next::Refuse(issue_not_found_error(issue_id)),
            Some(Some(i)) => i,
        };
        if !current_user.admin {
            match facts.requester_is_member {
                None => return Next::Fetch(UpdateIssueLookup::RequesterMembership),
                Some(m) => if let Err(e) = self.check_permission(current_user, m) {
                    return Next::Refuse(e);
                },
            }
        }
        match &facts.lookups {
            None => Next::Fetch(UpdateIssueLookup::ChangeLookups),
            Some(l) => match check_lookups(issue, dto, l) {
                Err(e) => Next::Refuse(e),
                Ok(()) => Next::Proceed,
            },
        }
    }

    /// Refuses an update whose fields break their rules; the messages are joined by `, `.
    pub fn validate(&self, dto: &UpdateIssueDto) -> (r: Result<(), ApplicationError>)
        ensures
            refusal_of(r) == problems_refusal(update_issue_problems(*dto)),
    {
        problems_error(dto.validate())
    }

    /// Refuses an update that changes nothing.
    pub fn check_has_changes(&self, dto: &UpdateIssueDto) -> (r: Result<(), ApplicationError>)
        ensures
            refusal_of(r) == (if update_has_changes(*dto) {
                None
            } else {
                Some((ErrorKind::Validation, "No changes provided"@))
            }),
    {
        if dto.has_changes() {
            Ok(())
        } else {
            Err(ApplicationError::Validation(literal("No changes provided")))
        }
    }

    /// The issue that was looked up, or the error for one that does not exist.
    pub fn require_issue(&self, issue_id: i32, found: Option<Issue>) -> (r: Result<
        Issue,
        ApplicationError,
    >)
        ensures
            match found {
                Some(i) => r == Ok::<Issue, ApplicationError>(i),
                None => refusal_of(r) == Some(issue_not_found(issue_id)),
            },
    {
        match found {
            Some(i) => Ok(i),
            None => Err(issue_not_found_error(issue_id)),
        }
    }

    /// Whether the user's membership in the issue's project must be looked up: for a user who
    /// is not an administrator.
    pub fn needs_membership(&self, current_user: &CurrentUser) -> (b: bool)
        ensures
            b == !current_user.admin,
    {
        !current_user.admin
    }

    /// Decides whether the user may edit the issue: administrators, and members of its project.
    pub fn check_permission(&self, current_user: &CurrentUser, is_member: bool) -> (r: Result<
        (),
        ApplicationError,
    >)
        ensures
            refusal_of(r) == edit_refusal(current_user.admin, is_member),
    {
        if current_user.admin || is_member {
            Ok(())
        } else {
            Err(ApplicationError::Forbidden(literal("You don't have permission to edit this issue")))
        }
    }

    /// The status to look up: the new one, when it changes.
    pub fn status_to_look_up(&self, issue: &Issue, dto: &UpdateIssueDto) -> (r: Option<i32>)
        ensures
            r == (if status_changes(*issue, *dto) {
                dto.status_id
            } else {
                None
            }),
    {
        match dto.status_id {
            Some(s) => if s != issue.status_id {
                Some(s)
            } else {
                None
            },
            None => None,
        }
    }

    /// The priority to look up: the new one, when it changes.
    pub fn priority_to_look_up(&self, issue: &Issue, dto: &UpdateIssueDto) -> (r: Option<i32>)
        ensures
            r == (if priority_changes(*issue, *dto) {
                dto.priority_id
            } else {
                None
            }),
    {
        match dto.priority_id {
            Some(p) => if p != issue.priority_id {
                Some(p)
            } else {
                None
            },
            None => None,
        }
    }

    /// The tracker to look up, with the trackers of the issue's project: the new one, when it
    /// changes.
    pub fn tracker_to_look_up(&self, issue: &Issue, dto: &UpdateIssueDto) -> (r: Option<i32>)
        ensures
            r == (if tracker_changes(*issue, *dto) {
                dto.tracker_id
            } else {
                None
            }),
    {
        match dto.tracker_id {
            Some(t) => if t != issue.tracker_id {
                Some(t)
            } else {
                None
            },
            None => None,
        }
    }

    /// The user to look up: the new assignee, when it changes to a user.
    pub fn assignee_to_look_up(&self, issue: &Issue, dto: &UpdateIssueDto) -> (r: Option<i32>)
        ensures
            r == (if assignee_changes(*issue, *dto) {
                assignee_of(dto.assigned_to_id->0)
            } else {
                None
            }),
    {
        match dto.assigned_to_id {
            Some(a) => {
                let wanted: Option<i32> = if a > 0 {
                    Some(a)
                } else {
                    None
                };
                if same_id(wanted, issue.assigned_to_id) {
                    None
                } else {
                    wanted
                }
            },
            None => None,
        }
    }

    /// The issue to look up as the parent, for its project: the one given, if any.
    pub fn parent_to_look_up(&self, issue: &Issue, dto: &UpdateIssueDto) -> (r: Option<i32>)
        ensures
            r == dto.parent_id,
    {
        dto.parent_id
    }

    /// Plans the update: the changes to store and the history details that record them.
    pub fn plan(&self, issue: &Issue, dto: &UpdateIssueDto, lookups: &UpdateLookups) -> (r: Result<
        (IssueUpdate, Vec<NewJournalDetail>),
        ApplicationError,
    >)
        ensures
            refusal_of(r) == update_lookup_refusal(*issue, *dto, *lookups),
            r matches Ok(p) ==> {
                &&& update_planned(p.0, *issue, *dto, lookups.status)
                &&& details_view(p.1@) == recorded_changes(*issue, *dto)
                &&& fresh_attr_details(p.1@)
            },
    {
        plan_update(issue, dto, lookups)
    }

    /// Whether a history entry is made: when there are notes or recorded changes.
    pub fn needs_journal(&self, notes: &Option<String>, detail_count: usize) -> (b: bool)
        ensures
            b == (has_notes(*notes) || detail_count > 0),
    {
        let noted = match notes {
            Some(n) => !is_blank(n.as_str()),
            None => false,
        };
        noted || detail_count > 0
    }

    /// The history entry of an update by the user: its notes, unless they are blank.
    pub fn build_journal(
        &self,
        issue_id: i32,
        user_id: i32,
        notes: Option<String>,
        private_notes: bool,
    ) -> (j: NewJournal)
        ensures
            j.journalized_id == issue_id,
            j.journalized_type@ == "Issue"@,
            j.user_id == user_id,
            j.notes == (if has_notes(notes) {
                notes
            } else {
                None
            }),
            j.private_notes == private_notes,
    {
        let kept = match notes {
            Some(n) => if is_blank(n.as_str()) {
                None
            } else {
                Some(n)
            },
            None => None,
        };
        NewJournal {
            journalized_id: issue_id,
            journalized_type: literal("Issue"),
            user_id,
            notes: kept,
            private_notes,
        }
    }
}

/// The keys of recorded changes, in order.
pub open spec fn change_keys(cs: Seq<ChangeView>) -> Seq<Seq<char>> {
    cs.map_values(|c: ChangeView| c.0)
}

/// The key, when the field is set.
pub open spec fn key_if(set: bool, key: Seq<char>) -> Seq<Seq<char>> {
    if set {
        seq![key]
    } else {
        Seq::empty()
    }
}

/// The keys of the fields that an update sets, in the order that the history records them.
pub open spec fn updated_keys(u: IssueUpdate) -> Seq<Seq<char>> {
    key_if(u.subject is Some, "subject"@) + key_if(u.description is Some, "description"@) + key_if(
        u.status_id is Some,
        "status_id"@,
    ) + key_if(u.priority_id is Some, "priority_id"@) + key_if(u.tracker_id is Some, "tracker_id"@)
        + key_if(u.assigned_to_id is Some, "assigned_to_id"@) + key_if(
        u.done_ratio is Some,
        "done_ratio"@,
    ) + key_if(u.is_private is Some, "is_private"@) + key_if(u.due_date is Some, "due_date"@)
        + key_if(u.start_date is Some, "start_date"@) + key_if(u.parent_id is Some, "parent_id"@)
}

/// Keys distribute over the concatenation of changes.
proof fn lemma_change_keys_add(a: Seq<ChangeView>, b: Seq<ChangeView>)
    ensures
        change_keys(a + b) == change_keys(a) + change_keys(b),
{
    assert(change_keys(a + b) =~= change_keys(a) + change_keys(b));
}

/// The key of a change that may be recorded.
proof fn lemma_change_keys_if(
    changed: bool,
    key: Seq<char>,
    before: Option<Seq<char>>,
    after: Option<Seq<char>>,
)
    ensures
        change_keys(change_if(changed, key, before, after)) == key_if(changed, key),
{
    assert(change_keys(change_if(changed, key, before, after)) =~= key_if(changed, key));
}

/// The history records, in order, exactly the fields that the planned update sets: a field is
/// stored as changed if and only if its change is recorded.
pub proof fn lemma_recorded_fields_are_updated_fields(
    issue: Issue,
    dto: UpdateIssueDto,
    u: IssueUpdate,
    new_status: Option<IssueStatus>,
)
    requires
        update_planned(u, issue, dto, new_status),
    ensures
        change_keys(recorded_changes(issue, dto)) == updated_keys(u),
{
    let c1 = change_if(
        subject_after(issue, dto) is Some,
        "subject"@,
        Some(issue.subject@),
        subject_after(issue, dto),
    );
    let c2 = change_if(
        description_changes(issue, dto),
        "description"@,
        opt_view(issue.description),
        description_shown(dto.description->0@),
    );
    let c3 = change_if(
        status_changes(issue, dto),
        "status_id"@,
        id_text(issue.status_id),
        id_text(dto.status_id->0),
    );
    let c4 = change_if(
        priority_changes(issue, dto),
        "priority_id"@,
        id_text(issue.priority_id),
        id_text(dto.priority_id->0),
    );
    let c5 = change_if(
        tracker_changes(issue, dto),
        "tracker_id"@,
        id_text(issue.tracker_id),
        id_text(dto.tracker_id->0),
    );
    let c6 = change_if(
        assignee_changes(issue, dto),
        "assigned_to_id"@,
        opt_id_text(issue.assigned_to_id),
        opt_id_text(assignee_of(dto.assigned_to_id->0)),
    );
    let c7 = change_if(
        done_ratio_changes(issue, dto),
        "done_ratio"@,
        id_text(issue.done_ratio),
        id_text(dto.done_ratio->0),
    );
    let c8 = change_if(
        is_private_changes(issue, dto),
        "is_private"@,
        Some(bool_text(issue.is_private)),
        Some(bool_text(dto.is_private->0)),
    );
    let c9 = change_if(
        due_date_changes(issue, dto),
        "due_date"@,
        opt_view(issue.due_date),
        Some(dto.due_date->0@),
    );
    let c10 = change_if(
        start_date_changes(issue, dto),
        "start_date"@,
        opt_view(issue.start_date),
        Some(dto.start_date->0@),
    );
    lemma_change_keys_add(c1, c2);
    lemma_change_keys_add(c1 + c2, c3);
    lemma_change_keys_add(c1 + c2 + c3, c4);
    lemma_change_keys_add(c1 + c2 + c3 + c4, c5);
    lemma_change_keys_add(c1 + c2 + c3 + c4 + c5, c6);
    lemma_change_keys_add(c1 + c2 + c3 + c4 + c5 + c6, c7);
    lemma_change_keys_add(c1 + c2 + c3 + c4 + c5 + c6 + c7, c8);
    lemma_change_keys_add(c1 + c2 + c3 + c4 + c5 + c6 + c7 + c8, c9);
    let c11 = change_if(
        parent_changes(issue, dto),
        "parent_id"@,
        opt_id_text(issue.parent_id),
        id_text(dto.parent_id->0),
    );
    lemma_change_keys_add(c1 + c2 + c3 + c4 + c5 + c6 + c7 + c8 + c9, c10);
    lemma_change_keys_add(c1 + c2 + c3 + c4 + c5 + c6 + c7 + c8 + c9 + c10, c11);
    lemma_change_keys_if(
        parent_changes(issue, dto),
        "parent_id"@,
        opt_id_text(issue.parent_id),
        id_text(dto.parent_id->0),
    );
    lemma_change_keys_if(
        subject_after(issue, dto) is Some,
        "subject"@,
        Some(issue.subject@),
        subject_after(issue, dto),
    );
    lemma_change_keys_if(
        description_changes(issue, dto),
        "description"@,
        opt_view(issue.description),
        description_shown(dto.description->0@),
    );
    lemma_change_keys_if(
        status_changes(issue, dto),
        "status_id"@,
        id_text(issue.status_id),
        id_text(dto.status_id->0),
    );
    lemma_change_keys_if(
        priority_changes(issue, dto),
        "priority_id"@,
        id_text(issue.priority_id),
        id_text(dto.priority_id->0),
    );
    lemma_change_keys_if(
        tracker_changes(issue, dto),
        "tracker_id"@,
        id_text(issue.tracker_id),
        id_text(dto.tracker_id->0),
    );
    lemma_change_keys_if(
        assignee_changes(issue, dto),
        "assigned_to_id"@,
        opt_id_text(issue.assigned_to_id),
        opt_id_text(assignee_of(dto.assigned_to_id->0)),
    );
    lemma_change_keys_if(
        done_ratio_changes(issue, dto),
        "done_ratio"@,
        id_text(issue.done_ratio),
        id_text(dto.done_ratio->0),
    );
    lemma_change_keys_if(
        is_private_changes(issue, dto),
        "is_private"@,
        Some(bool_text(issue.is_private)),
        Some(bool_text(dto.is_private->0)),
    );
    lemma_change_keys_if(
        due_date_changes(issue, dto),
        "due_date"@,
        opt_view(issue.due_date),
        Some(dto.due_date->0@),
    );
    lemma_change_keys_if(
        start_date_changes(issue, dto),
        "start_date"@,
        opt_view(issue.start_date),
        Some(dto.start_date->0@),
    );
    assert(opt_view(u.subject) is Some <==> u.subject is Some);
    assert(opt_view(u.description) is Some <==> u.description is Some);
    assert(opt_opt_view(u.due_date) is Some <==> u.due_date is Some);
    assert(opt_opt_view(u.start_date) is Some <==> u.start_date is Some);
}

/// Whether every change records a new value that differs from the old one.
pub open spec fn changes_are_real(cs: Seq<ChangeView>) -> bool {
    forall|k: int| 0 <= k < cs.len() ==> (#[trigger] cs[k]).1 != cs[k].2
}

/// Real changes stay real when put together.
proof fn lemma_real_add(a: Seq<ChangeView>, b: Seq<ChangeView>)
    requires
        changes_are_real(a),
        changes_are_real(b),
    ensures
        changes_are_real(a + b),
{
    assert forall|k: int| 0 <= k < (a + b).len() implies (#[trigger] (a + b)[k]).1 != (a
        + b)[k].2 by {
        if k < a.len() {
            assert((a + b)[k] == a[k]);
        } else {
            assert((a + b)[k] == b[k - a.len()]);
        }
    }
}

/// A change that may be recorded is real when its values differ.
proof fn lemma_change_if_real(
    changed: bool,
    key: Seq<char>,
    before: Option<Seq<char>>,
    after: Option<Seq<char>>,
)
    requires
        changed ==> before != after,
    ensures
        changes_are_real(change_if(changed, key, before, after)),
{
}

/// Distinct optional ids have distinct texts.
proof fn lemma_opt_id_text_injective(a: Option<i32>, b: Option<i32>)
    ensures
        a != b ==> opt_id_text(a) != opt_id_text(b),
{
    if let (Some(x), Some(y)) = (a, b) {
        crate::text::lemma_decimal_injective(x as int, y as int);
    }
}

/// The history never records a change that leaves a field as it was: each recorded change
/// has a new value that differs from the old one.
pub proof fn lemma_recorded_changes_are_real(issue: Issue, dto: UpdateIssueDto)
    ensures
        changes_are_real(recorded_changes(issue, dto)),
{
    let c1 = change_if(
        subject_after(issue, dto) is Some,
        "subject"@,
        Some(issue.subject@),
        subject_after(issue, dto),
    );
    let c2 = change_if(
        description_changes(issue, dto),
        "description"@,
        opt_view(issue.description),
        description_shown(dto.description->0@),
    );
    let c3 = change_if(
        status_changes(issue, dto),
        "status_id"@,
        id_text(issue.status_id),
        id_text(dto.status_id->0),
    );
    let c4 = change_if(
        priority_changes(issue, dto),
        "priority_id"@,
        id_text(issue.priority_id),
        id_text(dto.priority_id->0),
    );
    let c5 = change_if(
        tracker_changes(issue, dto),
        "tracker_id"@,
        id_text(issue.tracker_id),
        id_text(dto.tracker_id->0),
    );
    let c6 = change_if(
        assignee_changes(issue, dto),
        "assigned_to_id"@,
        opt_id_text(issue.assigned_to_id),
        opt_id_text(assignee_of(dto.assigned_to_id->0)),
    );
    let c7 = change_if(
        done_ratio_changes(issue, dto),
        "done_ratio"@,
        id_text(issue.done_ratio),
        id_text(dto.done_ratio->0),
    );
    let c8 = change_if(
        is_private_changes(issue, dto),
        "is_private"@,
        Some(bool_text(issue.is_private)),
        Some(bool_text(dto.is_private->0)),
    );
    let c9 = change_if(
        due_date_changes(issue, dto),
        "due_date"@,
        opt_view(issue.due_date),
        Some(dto.due_date->0@),
    );
    let c10 = change_if(
        start_date_changes(issue, dto),
        "start_date"@,
        opt_view(issue.start_date),
        Some(dto.start_date->0@),
    );
    lemma_change_if_real(
        subject_after(issue, dto) is Some,
        "subject"@,
        Some(issue.subject@),
        subject_after(issue, dto),
    );
    lemma_change_if_real(
        description_changes(issue, dto),
        "description"@,
        opt_view(issue.description),
        description_shown(dto.description->0@),
    );
    crate::text::lemma_decimal_injective(issue.status_id as int, dto.status_id->0 as int);
    lemma_change_if_real(
        status_changes(issue, dto),
        "status_id"@,
        id_text(issue.status_id),
        id_text(dto.status_id->0),
    );
    crate::text::lemma_decimal_injective(issue.priority_id as int, dto.priority_id->0 as int);
    lemma_change_if_real(
        priority_changes(issue, dto),
        "priority_id"@,
        id_text(issue.priority_id),
        id_text(dto.priority_id->0),
    );
    crate::text::lemma_decimal_injective(issue.tracker_id as int, dto.tracker_id->0 as int);
    lemma_change_if_real(
        tracker_changes(issue, dto),
        "tracker_id"@,
        id_text(issue.tracker_id),
        id_text(dto.tracker_id->0),
    );
    lemma_opt_id_text_injective(issue.assigned_to_id, assignee_of(dto.assigned_to_id->0));
    lemma_change_if_real(
        assignee_changes(issue, dto),
        "assigned_to_id"@,
        opt_id_text(issue.assigned_to_id),
        opt_id_text(assignee_of(dto.assigned_to_id->0)),
    );
    crate::text::lemma_decimal_injective(issue.done_ratio as int, dto.done_ratio->0 as int);
    lemma_change_if_real(
        done_ratio_changes(issue, dto),
        "done_ratio"@,
        id_text(issue.done_ratio),
        id_text(dto.done_ratio->0),
    );
    assert(bool_text(issue.is_private).len() != bool_text(!issue.is_private).len());
    lemma_change_if_real(
        is_private_changes(issue, dto),
        "is_private"@,
        Some(bool_text(issue.is_private)),
        Some(bool_text(dto.is_private->0)),
    );
    lemma_change_if_real(
        due_date_changes(issue, dto),
        "due_date"@,
        opt_view(issue.due_date),
        Some(dto.due_date->0@),
    );
    lemma_change_if_real(
        start_date_changes(issue, dto),
        "start_date"@,
        opt_view(issue.start_date),
        Some(dto.start_date->0@),
    );
    lemma_real_add(c1, c2);
    lemma_real_add(c1 + c2, c3);
    lemma_real_add(c1 + c2 + c3, c4);
    lemma_real_add(c1 + c2 + c3 + c4, c5);
    lemma_real_add(c1 + c2 + c3 + c4 + c5, c6);
    lemma_real_add(c1 + c2 + c3 + c4 + c5 + c6, c7);
    lemma_real_add(c1 + c2 + c3 + c4 + c5 + c6 + c7, c8);
    lemma_real_add(c1 + c2 + c3 + c4 + c5 + c6 + c7 + c8, c9);
    let c11 = change_if(
        parent_changes(issue, dto),
        "parent_id"@,
        opt_id_text(issue.parent_id),
        id_text(dto.parent_id->0),
    );
    lemma_opt_id_text_injective(issue.parent_id, dto.parent_id);
    lemma_change_if_real(
        parent_changes(issue, dto),
        "parent_id"@,
        opt_id_text(issue.parent_id),
        id_text(dto.parent_id->0),
    );
    lemma_real_add(c1 + c2 + c3 + c4 + c5 + c6 + c7 + c8 + c9, c10);
    lemma_real_add(c1 + c2 + c3 + c4 + c5 + c6 + c7 + c8 + c9 + c10, c11);
}

/// An update that gives none of the recorded fields, such as one that only adds notes,
/// records no change.
pub proof fn lemma_notes_only_update_records_nothing(issue: Issue, dto: UpdateIssueDto)
    requires
        dto.subject is None,
        dto.description is None,
        dto.status_id is None,
        dto.priority_id is None,
        dto.tracker_id is None,
        dto.assigned_to_id is None,
        dto.done_ratio is None,
        dto.is_private is None,
        dto.due_date is None,
        dto.start_date is None,
        dto.parent_id is None,
    ensures
        recorded_changes(issue, dto).len() == 0,
{
}

/// A planned update sets each plain field that the request gives with a value other than the
/// issue's to that value, and leaves it unset otherwise: making an issue public is applied
/// just as making it private is, and so are a new status, priority, tracker, completion ratio
/// and parent issue.
pub proof fn planned_update_sets_given_new_values(
    u: IssueUpdate,
    issue: Issue,
    dto: UpdateIssueDto,
    new_status: Option<IssueStatus>,
)
    requires
        update_planned(u, issue, dto, new_status),
    ensures
        u.is_private == (match dto.is_private {
            Some(p) => if p != issue.is_private {
                Some(p)
            } else {
                None
            },
            None => None,
        }),
        u.done_ratio == (match dto.done_ratio {
            Some(r) => if r != issue.done_ratio {
                Some(r)
            } else {
                None
            },
            None => None,
        }),
        u.status_id == (match dto.status_id {
            Some(x) => if x != issue.status_id {
                Some(x)
            } else {
                None
            },
            None => None,
        }),
        u.priority_id == (match dto.priority_id {
            Some(x) => if x != issue.priority_id {
                Some(x)
            } else {
                None
            },
            None => None,
        }),
        u.tracker_id == (match dto.tracker_id {
            Some(x) => if x != issue.tracker_id {
                Some(x)
            } else {
                None
            },
            None => None,
        }),
        u.parent_id == (match dto.parent_id {
            Some(x) => if issue.parent_id != Some(x) {
                Some(Some(x))
            } else {
                None
            },
            None => None,
        }),
        u.assigned_to_id == (match dto.assigned_to_id {
            Some(a) => {
                let wanted = if a > 0 {
                    Some(a)
                } else {
                    None
                };
                if wanted != issue.assigned_to_id {
                    Some(wanted)
                } else {
                    None
                }
            },
            None => None,
        }),
        opt_view(u.subject) == (match dto.subject {
            Some(t) => if trim_chars(t@) != issue.subject@ {
                Some(trim_chars(t@))
            } else {
                None
            },
            None => None,
        }),
        opt_opt_view(u.due_date) == (match dto.due_date {
            Some(d) => if opt_view(issue.due_date) != Some(d@) {
                Some(Some(d@))
            } else {
                None
            },
            None => None,
        }),
        opt_opt_view(u.start_date) == (match dto.start_date {
            Some(d) => if opt_view(issue.start_date) != Some(d@) {
                Some(Some(d@))
            } else {
                None
            },
            None => None,
        }),
        u.category_id is None,
{
}

/// The closing time moves with the status: an update that moves an open issue to a closed
/// status closes it now, one that moves it to an open status clears the closing time, and
/// one that keeps the status leaves it alone.
pub proof fn closing_time_follows_the_status(
    u: IssueUpdate,
    issue: Issue,
    dto: UpdateIssueDto,
    new_status: IssueStatus,
)
    requires
        update_planned(u, issue, dto, Some(new_status)),
    ensures
        !(dto.status_id matches Some(s) && s != issue.status_id) ==> u.closed_on
            == ClosedOnChange::Keep,
        (dto.status_id matches Some(s) && s != issue.status_id) ==> u.closed_on == (
        if new_status.is_closed && issue.closed_on is None {
            ClosedOnChange::CloseNow
        } else if !new_status.is_closed {
            ClosedOnChange::Reopen
        } else {
            ClosedOnChange::Keep
        }),
{
}

/// The text that the history writes for a flag.
proof fn lemma_flag_text(b: bool)
    ensures
        bool_text(b) == (if b {
            seq!['t', 'r', 'u', 'e']
        } else {
            seq!['f', 'a', 'l', 's', 'e']
        }),
{
}

/// A change of an issue's privacy is recorded in its history under `is_private`, with the
/// old and the new flag written out, whichever way it goes.
pub proof fn privacy_change_is_recorded(issue: Issue, dto: UpdateIssueDto, p: bool)
    requires
        dto.is_private == Some(p),
        p != issue.is_private,
    ensures
        recorded_changes(issue, dto).contains(
            (
                seq!['i', 's', '_', 'p', 'r', 'i', 'v', 'a', 't', 'e'],
                Some(
                    if issue.is_private {
                        seq!['t', 'r', 'u', 'e']
                    } else {
                        seq!['f', 'a', 'l', 's', 'e']
                    },
                ),
                Some(
                    if p {
                        seq!['t', 'r', 'u', 'e']
                    } else {
                        seq!['f', 'a', 'l', 's', 'e']
                    },
                ),
            ),
        ),
{
    reveal_strlit("is_private");
    lemma_flag_text(issue.is_private);
    lemma_flag_text(p);
    let c1 = change_if(
        subject_after(issue, dto) is Some,
        "subject"@,
        Some(issue.subject@),
        subject_after(issue, dto),
    );
    let c2 = change_if(
        description_changes(issue, dto),
        "description"@,
        opt_view(issue.description),
        description_shown(dto.description->0@),
    );
    let c3 = change_if(
        status_changes(issue, dto),
        "status_id"@,
        id_text(issue.status_id),
        id_text(dto.status_id->0),
    );
    let c4 = change_if(
        priority_changes(issue, dto),
        "priority_id"@,
        id_text(issue.priority_id),
        id_text(dto.priority_id->0),
    );
    let c5 = change_if(
        tracker_changes(issue, dto),
        "tracker_id"@,
        id_text(issue.tracker_id),
        id_text(dto.tracker_id->0),
    );
    let c6 = change_if(
        assignee_changes(issue, dto),
        "assigned_to_id"@,
        opt_id_text(issue.assigned_to_id),
        opt_id_text(assignee_of(dto.assigned_to_id->0)),
    );
    let c7 = change_if(
        done_ratio_changes(issue, dto),
        "done_ratio"@,
        id_text(issue.done_ratio),
        id_text(dto.done_ratio->0),
    );
    let c8 = change_if(
        is_private_changes(issue, dto),
        "is_private"@,
        Some(bool_text(issue.is_private)),
        Some(bool_text(dto.is_private->0)),
    );
    let c9 = change_if(
        due_date_changes(issue, dto),
        "due_date"@,
        opt_view(issue.due_date),
        Some(dto.due_date->0@),
    );
    let c10 = change_if(
        start_date_changes(issue, dto),
        "start_date"@,
        opt_view(issue.start_date),
        Some(dto.start_date->0@),
    );
    let c11 = change_if(
        parent_changes(issue, dto),
        "parent_id"@,
        opt_id_text(issue.parent_id),
        id_text(dto.parent_id->0),
    );
    let x = ("is_private"@, Some(bool_text(issue.is_private)), Some(bool_text(p)));
    let a = c1 + c2 + c3 + c4 + c5 + c6 + c7;
    let n = a.len() as int;
    assert(c8 == seq![x]);
    assert((a + c8)[n] == x);
    assert((a + c8 + c9)[n] == x);
    assert((a + c8 + c9 + c10)[n] == x);
    assert((a + c8 + c9 + c10 + c11)[n] == x);
    assert(recorded_changes(issue, dto) == a + c8 + c9 + c10 + c11);
    assert("is_private"@ =~= seq!['i', 's', '_', 'p', 'r', 'i', 'v', 'a', 't', 'e']);
    assert(recorded_changes(issue, dto)[n] == x);
}

/// An update is stored only when every rule holds: the request is valid and changes
/// something, the issue exists, the requester is an administrator or a member of its project,
/// and what the changes name was found: a new status, priority and tracker exist, the tracker
/// is used by the project, a new assignee exists, and a given parent issue exists in the same
/// project.
pub proof fn update_stored_only_when_every_rule_holds(
    admin: bool,
    issue_id: i32,
    dto: UpdateIssueDto,
    f: UpdateIssueFacts,
)
    requires
        update_issue_decision(admin, issue_id, dto, f) == Ok::<Option<UpdateIssueLookup>, Refusal>(
            None,
        ),
    ensures
        update_issue_problems(dto).len() == 0,
        update_has_changes(dto),
        f.issue matches Some(Some(_)),
        admin || f.requester_is_member == Some(true),
        f.lookups is Some,
        ({
            let issue = f.issue.unwrap().unwrap();
            let l = f.lookups.unwrap();
            &&& (dto.status_id matches Some(s) && s != issue.status_id) ==> l.status is Some
            &&& (dto.priority_id matches Some(p) && p != issue.priority_id) ==> l.priority_found
            &&& (dto.tracker_id matches Some(t) && t != issue.tracker_id) ==> l.tracker_found
                && l.project_tracker_ids@.contains(dto.tracker_id->0)
            &&& dto.parent_id matches Some(_) ==> l.parent_project_id == Some(issue.project_id)
            &&& (dto.assigned_to_id matches Some(a) && a > 0 && issue.assigned_to_id != Some(a))
                ==> l.assignee_found
        }),
{
}

/// A change of the status is recorded in the issue's history under `status_id`, with the old and the
/// new value written in decimal.
pub proof fn status_id_change_is_recorded(issue: Issue, dto: UpdateIssueDto, v: i32)
    requires
        dto.status_id == Some(v),
        v != issue.status_id,
    ensures
        recorded_changes(issue, dto).contains(
            (
                seq!['s', 't', 'a', 't', 'u', 's', '_', 'i', 'd'],
                Some(decimal(issue.status_id as int)),
                Some(decimal(v as int)),
            ),
        ),
{
    reveal_strlit("status_id");
    let c1 = change_if(
        subject_after(issue, dto) is Some,
        "subject"@,
        Some(issue.subject@),
        subject_after(issue, dto),
    );
    let c2 = change_if(
        description_changes(issue, dto),
        "description"@,
        opt_view(issue.description),
        description_shown(dto.description->0@),
    );
    let c3 = change_if(
        status_changes(issue, dto),
        "status_id"@,
        id_text(issue.status_id),
        id_text(dto.status_id->0),
    );
    let c4 = change_if(
        priority_changes(issue, dto),
        "priority_id"@,
        id_text(issue.priority_id),
        id_text(dto.priority_id->0),
    );
    let c5 = change_if(
        tracker_changes(issue, dto),
        "tracker_id"@,
        id_text(issue.tracker_id),
        id_text(dto.tracker_id->0),
    );
    let c6 = change_if(
        assignee_changes(issue, dto),
        "assigned_to_id"@,
        opt_id_text(issue.assigned_to_id),
        opt_id_text(assignee_of(dto.assigned_to_id->0)),
    );
    let c7 = change_if(
        done_ratio_changes(issue, dto),
        "done_ratio"@,
        id_text(issue.done_ratio),
        id_text(dto.done_ratio->0),
    );
    let c8 = change_if(
        is_private_changes(issue, dto),
        "is_private"@,
        Some(bool_text(issue.is_private)),
        Some(bool_text(dto.is_private->0)),
    );
    let c9 = change_if(
        due_date_changes(issue, dto),
        "due_date"@,
        opt_view(issue.due_date),
        Some(dto.due_date->0@),
    );
    let c10 = change_if(
        start_date_changes(issue, dto),
        "start_date"@,
        opt_view(issue.start_date),
        Some(dto.start_date->0@),
    );
    let c11 = change_if(
        parent_changes(issue, dto),
        "parent_id"@,
        opt_id_text(issue.parent_id),
        id_text(dto.parent_id->0),
    );
    let x = ("status_id"@, Some(decimal(issue.status_id as int)), Some(decimal(v as int)));
    let n: int = (c1 + c2).len() as int;
    assert(c3 == seq![x]);
    assert(((c1 + c2) + c3)[n] == x);
    assert(((c1 + c2) + c3 + c4)[n] == x);
    assert(((c1 + c2) + c3 + c4 + c5)[n] == x);
    assert(((c1 + c2) + c3 + c4 + c5 + c6)[n] == x);
    assert(((c1 + c2) + c3 + c4 + c5 + c6 + c7)[n] == x);
    assert(((c1 + c2) + c3 + c4 + c5 + c6 + c7 + c8)[n] == x);
    assert(((c1 + c2) + c3 + c4 + c5 + c6 + c7 + c8 + c9)[n] == x);
    assert(((c1 + c2) + c3 + c4 + c5 + c6 + c7 + c8 + c9 + c10)[n] == x);
    assert(((c1 + c2) + c3 + c4 + c5 + c6 + c7 + c8 + c9 + c10 + c11)[n] == x);
    assert(recorded_changes(issue, dto) == (c1 + c2) + c3 + c4 + c5 + c6 + c7 + c8 + c9 + c10 + c11);
    assert("status_id"@ =~= seq!['s', 't', 'a', 't', 'u', 's', '_', 'i', 'd']);
    assert(recorded_changes(issue, dto)[n] == x);
}

/// A change of the priority is recorded in the issue's history under `priority_id`, with the old and the
/// new value written in decimal.
pub proof fn priority_id_change_is_recorded(issue: Issue, dto: UpdateIssueDto, v: i32)
    requires
        dto.priority_id == Some(v),
        v != issue.priority_id,
    ensures
        recorded_changes(issue, dto).contains(
            (
                seq!['p', 'r', 'i', 'o', 'r', 'i', 't', 'y', '_', 'i', 'd'],
                Some(decimal(issue.priority_id as int)),
                Some(decimal(v as int)),
            ),
        ),
{
    reveal_strlit("priority_id");
    let c1 = change_if(
        subject_after(issue, dto) is Some,
        "subject"@,
        Some(issue.subject@),
        subject_after(issue, dto),
    );
    let c2 = change_if(
        description_changes(issue, dto),
        "description"@,
        opt_view(issue.description),
        description_shown(dto.description->0@),
    );
    let c3 = change_if(
        status_changes(issue, dto),
        "status_id"@,
        id_text(issue.status_id),
        id_text(dto.status_id->0),
    );
    let c4 = change_if(
        priority_changes(issue, dto),
        "priority_id"@,
        id_text(issue.priority_id),
        id_text(dto.priority_id->0),
    );
    let c5 = change_if(
        tracker_changes(issue, dto),
        "tracker_id"@,
        id_text(issue.tracker_id),
        id_text(dto.tracker_id->0),
    );
    let c6 = change_if(
        assignee_changes(issue, dto),
        "assigned_to_id"@,
        opt_id_text(issue.assigned_to_id),
        opt_id_text(assignee_of(dto.assigned_to_id->0)),
    );
    let c7 = change_if(
        done_ratio_changes(issue, dto),
        "done_ratio"@,
        id_text(issue.done_ratio),
        id_text(dto.done_ratio->0),
    );
    let c8 = change_if(
        is_private_changes(issue, dto),
        "is_private"@,
        Some(bool_text(issue.is_private)),
        Some(bool_text(dto.is_private->0)),
    );
    let c9 = change_if(
        due_date_changes(issue, dto),
        "due_date"@,
        opt_view(issue.due_date),
        Some(dto.due_date->0@),
    );
    let c10 = change_if(
        start_date_changes(issue, dto),
        "start_date"@,
        opt_view(issue.start_date),
        Some(dto.start_date->0@),
    );
    let c11 = change_if(
        parent_changes(issue, dto),
        "parent_id"@,
        opt_id_text(issue.parent_id),
        id_text(dto.parent_id->0),
    );
    let x = ("priority_id"@, Some(decimal(issue.priority_id as int)), Some(decimal(v as int)));
    let n: int = (c1 + c2 + c3).len() as int;
    assert(c4 == seq![x]);
    assert(((c1 + c2 + c3) + c4)[n] == x);
    assert(((c1 + c2 + c3) + c4 + c5)[n] == x);
    assert(((c1 + c2 + c3) + c4 + c5 + c6)[n] == x);
    assert(((c1 + c2 + c3) + c4 + c5 + c6 + c7)[n] == x);
    assert(((c1 + c2 + c3) + c4 + c5 + c6 + c7 + c8)[n] == x);
    assert(((c1 + c2 + c3) + c4 + c5 + c6 + c7 + c8 + c9)[n] == x);
    assert(((c1 + c2 + c3) + c4 + c5 + c6 + c7 + c8 + c9 + c10)[n] == x);
    assert(((c1 + c2 + c3) + c4 + c5 + c6 + c7 + c8 + c9 + c10 + c11)[n] == x);
    assert(recorded_changes(issue, dto) == (c1 + c2 + c3) + c4 + c5 + c6 + c7 + c8 + c9 + c10 + c11);
    assert("priority_id"@ =~= seq!['p', 'r', 'i', 'o', 'r', 'i', 't', 'y', '_', 'i', 'd']);
    assert(recorded_changes(issue, dto)[n] == x);
}

/// A change of the tracker is recorded in the issue's history under `tracker_id`, with the old and the
/// new value written in decimal.
pub proof fn tracker_id_change_is_recorded(issue: Issue, dto: UpdateIssueDto, v: i32)
    requires
        dto.tracker_id == Some(v),
        v != issue.tracker_id,
    ensures
        recorded_changes(issue, dto).contains(
            (
                seq!['t', 'r', 'a', 'c', 'k', 'e', 'r', '_', 'i', 'd'],
                Some(decimal(issue.tracker_id as int)),
                Some(decimal(v as int)),
            ),
        ),
{
    reveal_strlit("tracker_id");
    let c1 = change_if(
        subject_after(issue, dto) is Some,
        "subject"@,
        Some(issue.subject@),
        subject_after(issue, dto),
    );
    let c2 = change_if(
        description_changes(issue, dto),
        "description"@,
        opt_view(issue.description),
        description_shown(dto.description->0@),
    );
    let c3 = change_if(
        status_changes(issue, dto),
        "status_id"@,
        id_text(issue.status_id),
        id_text(dto.status_id->0),
    );
    let c4 = change_if(
        priority_changes(issue, dto),
        "priority_id"@,
        id_text(issue.priority_id),
        id_text(dto.priority_id->0),
    );
    let c5 = change_if(
        tracker_changes(issue, dto),
        "tracker_id"@,
        id_text(issue.tracker_id),
        id_text(dto.tracker_id->0),
    );
    let c6 = change_if(
        assignee_changes(issue, dto),
        "assigned_to_id"@,
        opt_id_text(issue.assigned_to_id),
        opt_id_text(assignee_of(dto.assigned_to_id->0)),
    );
    let c7 = change_if(
        done_ratio_changes(issue, dto),
        "done_ratio"@,
        id_text(issue.done_ratio),
        id_text(dto.done_ratio->0),
    );
    let c8 = change_if(
        is_private_changes(issue, dto),
        "is_private"@,
        Some(bool_text(issue.is_private)),
        Some(bool_text(dto.is_private->0)),
    );
    let c9 = change_if(
        due_date_changes(issue, dto),
        "due_date"@,
        opt_view(issue.due_date),
        Some(dto.due_date->0@),
    );
    let c10 = change_if(
        start_date_changes(issue, dto),
        "start_date"@,
        opt_view(issue.start_date),
        Some(dto.start_date->0@),
    );
    let c11 = change_if(
        parent_changes(issue, dto),
        "parent_id"@,
        opt_id_text(issue.parent_id),
        id_text(dto.parent_id->0),
    );
    let x = ("tracker_id"@, Some(decimal(issue.tracker_id as int)), Some(decimal(v as int)));
    let n: int = (c1 + c2 + c3 + c4).len() as int;
    assert(c5 == seq![x]);
    assert(((c1 + c2 + c3 + c4) + c5)[n] == x);
    assert(((c1 + c2 + c3 + c4) + c5 + c6)[n] == x);
    assert(((c1 + c2 + c3 + c4) + c5 + c6 + c7)[n] == x);
    assert(((c1 + c2 + c3 + c4) + c5 + c6 + c7 + c8)[n] == x);
    assert(((c1 + c2 + c3 + c4) + c5 + c6 + c7 + c8 + c9)[n] == x);
    assert(((c1 + c2 + c3 + c4) + c5 + c6 + c7 + c8 + c9 + c10)[n] == x);
    assert(((c1 + c2 + c3 + c4) + c5 + c6 + c7 + c8 + c9 + c10 + c11)[n] == x);
    assert(recorded_changes(issue, dto) == (c1 + c2 + c3 + c4) + c5 + c6 + c7 + c8 + c9 + c10 + c11);
    assert("tracker_id"@ =~= seq!['t', 'r', 'a', 'c', 'k', 'e', 'r', '_', 'i', 'd']);
    assert(recorded_changes(issue, dto)[n] == x);
}

/// A change of the completion ratio is recorded in the issue's history under `done_ratio`, with the old and the
/// new value written in decimal.
pub proof fn done_ratio_change_is_recorded(issue: Issue, dto: UpdateIssueDto, v: i32)
    requires
        dto.done_ratio == Some(v),
        v != issue.done_ratio,
    ensures
        recorded_changes(issue, dto).contains(
            (
                seq!['d', 'o', 'n', 'e', '_', 'r', 'a', 't', 'i', 'o'],
                Some(decimal(issue.done_ratio as int)),
                Some(decimal(v as int)),
            ),
        ),
{
    reveal_strlit("done_ratio");
    let c1 = change_if(
        subject_after(issue, dto) is Some,
        "subject"@,
        Some(issue.subject@),
        subject_after(issue, dto),
    );
    let c2 = change_if(
        description_changes(issue, dto),
        "description"@,
        opt_view(issue.description),
        description_shown(dto.description->0@),
    );
    let c3 = change_if(
        status_changes(issue, dto),
        "status_id"@,
        id_text(issue.status_id),
        id_text(dto.status_id->0),
    );
    let c4 = change_if(
        priority_changes(issue, dto),
        "priority_id"@,
        id_text(issue.priority_id),
        id_text(dto.priority_id->0),
    );
    let c5 = change_if(
        tracker_changes(issue, dto),
        "tracker_id"@,
        id_text(issue.tracker_id),
        id_text(dto.tracker_id->0),
    );
    let c6 = change_if(
        assignee_changes(issue, dto),
        "assigned_to_id"@,
        opt_id_text(issue.assigned_to_id),
        opt_id_text(assignee_of(dto.assigned_to_id->0)),
    );
    let c7 = change_if(
        done_ratio_changes(issue, dto),
        "done_ratio"@,
        id_text(issue.done_ratio),
        id_text(dto.done_ratio->0),
    );
    let c8 = change_if(
        is_private_changes(issue, dto),
        "is_private"@,
        Some(bool_text(issue.is_private)),
        Some(bool_text(dto.is_private->0)),
    );
    let c9 = change_if(
        due_date_changes(issue, dto),
        "due_date"@,
        opt_view(issue.due_date),
        Some(dto.due_date->0@),
    );
    let c10 = change_if(
        start_date_changes(issue, dto),
        "start_date"@,
        opt_view(issue.start_date),
        Some(dto.start_date->0@),
    );
    let c11 = change_if(
        parent_changes(issue, dto),
        "parent_id"@,
        opt_id_text(issue.parent_id),
        id_text(dto.parent_id->0),
    );
    let x = ("done_ratio"@, Some(decimal(issue.done_ratio as int)), Some(decimal(v as int)));
    let n: int = (c1 + c2 + c3 + c4 + c5 + c6).len() as int;
    assert(c7 == seq![x]);
    assert(((c1 + c2 + c3 + c4 + c5 + c6) + c7)[n] == x);
    assert(((c1 + c2 + c3 + c4 + c5 + c6) + c7 + c8)[n] == x);
    assert(((c1 + c2 + c3 + c4 + c5 + c6) + c7 + c8 + c9)[n] == x);
    assert(((c1 + c2 + c3 + c4 + c5 + c6) + c7 + c8 + c9 + c10)[n] == x);
    assert(((c1 + c2 + c3 + c4 + c5 + c6) + c7 + c8 + c9 + c10 + c11)[n] == x);
    assert(recorded_changes(issue, dto) == (c1 + c2 + c3 + c4 + c5 + c6) + c7 + c8 + c9 + c10 + c11);
    assert("done_ratio"@ =~= seq!['d', 'o', 'n', 'e', '_', 'r', 'a', 't', 'i', 'o']);
    assert(recorded_changes(issue, dto)[n] == x);
}

/// A change of the parent issue is recorded in the issue's history under `parent_id`, with the old and the
/// new value written in decimal.
#[verifier::rlimit(50)]
pub proof fn parent_id_change_is_recorded(issue: Issue, dto: UpdateIssueDto, v: i32)
    requires
        dto.parent_id == Some(v),
        issue.parent_id != Some(v),
    ensures
        recorded_changes(issue, dto).contains(
            (
                seq!['p', 'a', 'r', 'e', 'n', 't', '_', 'i', 'd'],
                match issue.parent_id {
                    Some(q) => Some(decimal(q as int)),
                    None => None,
                },
                Some(decimal(v as int)),
            ),
        ),
{
    reveal_strlit("parent_id");
    let c1 = change_if(
        subject_after(issue, dto) is Some,
        "subject"@,
        Some(issue.subject@),
        subject_after(issue, dto),
    );
    let c2 = change_if(
        description_changes(issue, dto),
        "description"@,
        opt_view(issue.description),
        description_shown(dto.description->0@),
    );
    let c3 = change_if(
        status_changes(issue, dto),
        "status_id"@,
        id_text(issue.status_id),
        id_text(dto.status_id->0),
    );
    let c4 = change_if(
        priority_changes(issue, dto),
        "priority_id"@,
        id_text(issue.priority_id),
        id_text(dto.priority_id->0),
    );
    let c5 = change_if(
        tracker_changes(issue, dto),
        "tracker_id"@,
        id_text(issue.tracker_id),
        id_text(dto.tracker_id->0),
    );
    let c6 = change_if(
        assignee_changes(issue, dto),
        "assigned_to_id"@,
        opt_id_text(issue.assigned_to_id),
        opt_id_text(assignee_of(dto.assigned_to_id->0)),
    );
    let c7 = change_if(
        done_ratio_changes(issue, dto),
        "done_ratio"@,
        id_text(issue.done_ratio),
        id_text(dto.done_ratio->0),
    );
    let c8 = change_if(
        is_private_changes(issue, dto),
        "is_private"@,
        Some(bool_text(issue.is_private)),
        Some(bool_text(dto.is_private->0)),
    );
    let c9 = change_if(
        due_date_changes(issue, dto),
        "due_date"@,
        opt_view(issue.due_date),
        Some(dto.due_date->0@),
    );
    let c10 = change_if(
        start_date_changes(issue, dto),
        "start_date"@,
        opt_view(issue.start_date),
        Some(dto.start_date->0@),
    );
    let c11 = change_if(
        parent_changes(issue, dto),
        "parent_id"@,
        opt_id_text(issue.parent_id),
        id_text(dto.parent_id->0),
    );
    let x = ("parent_id"@, match issue.parent_id {
                    Some(q) => Some(decimal(q as int)),
                    None => None,
                }, Some(decimal(v as int)));
    let n: int = (c1 + c2 + c3 + c4 + c5 + c6 + c7 + c8 + c9 + c10).len() as int;
    assert(c11 == seq![x]);
    assert(((c1 + c2 + c3 + c4 + c5 + c6 + c7 + c8 + c9 + c10) + c11)[n] == x);
    assert(recorded_changes(issue, dto) == (c1 + c2 + c3 + c4 + c5 + c6 + c7 + c8 + c9 + c10) + c11);
    assert("parent_id"@ =~= seq!['p', 'a', 'r', 'e', 'n', 't', '_', 'i', 'd']);
    assert(recorded_changes(issue, dto)[n] == x);
}

} // verus!
