use crate::domain::{
    Attachment, CurrentUser, Enumeration, Issue, IssueRelation, IssueStatus, Journal,
    JournalDetail, Project, Tracker, User,
};
use crate::errors::{ApplicationError, refusal_of};
use crate::text::{chars_of, split_pieces, str_eq, trim, trim_chars};
use crate::use_cases::access::{
    check_view_access, issue_not_found, issue_not_found_error, view_refusal,
};
use crate::use_cases::attachment::get_attachment::{
    content_url, content_url_of, is_thumbnail_image, opt_view, thumbnail_url, thumbnail_url_of,
};
use crate::use_cases::project::{
    named_project, named_tracker, named_user, named_user_if_found, user_named, fallback_name,
    NamedId,
};
use super::list_issues::{named_priority, status_info, StatusInfo};
use vstd::prelude::*;

verus! {

/// The most subtasks that an issue shows.
pub const CHILDREN_PAGE_LIMIT: u32 = 100;

/// Related records that an issue can be shown with.
#[derive(Debug, Clone, Copy, PartialEq, Eq, Structural)]
pub enum IncludeOption {
    Attachments,
    Journals,
    Relations,
    Children,
    Watchers,
    AllowedStatuses,
}

/// The option that a name stands for, if any.
pub open spec fn include_named(name: Seq<char>) -> Option<IncludeOption> {
    if name == "attachments"@ {
        Some(IncludeOption::Attachments)
    } else if name == "journals"@ {
        Some(IncludeOption::Journals)
    } else if name == "relations"@ {
        Some(IncludeOption::Relations)
    } else if name == "children"@ {
        Some(IncludeOption::Children)
    } else if name == "watchers"@ {
        Some(IncludeOption::Watchers)
    } else if name == "allowed_statuses"@ {
        Some(IncludeOption::AllowedStatuses)
    } else {
        None
    }
}

/// The options that the pieces name once trimmed, in order; pieces that name none are skipped.
pub open spec fn named_includes(pieces: Seq<Seq<char>>) -> Seq<IncludeOption>
    decreases pieces.len(),
{
    if pieces.len() == 0 {
        Seq::empty()
    } else {
        let rest = named_includes(pieces.drop_last());
        match include_named(trim_chars(pieces.last())) {
            Some(o) => rest.push(o),
            None => rest,
        }
    }
}

/// The options that a requested list names: its comma-separated names, trimmed.
pub open spec fn parsed_includes(requested: Option<Seq<char>>) -> Seq<IncludeOption> {
    match requested {
        Some(s) => if s.len() == 0 {
            Seq::empty()
        } else {
            named_includes(split_pieces(s, ','))
        },
        None => Seq::empty(),
    }
}

/// The option that a piece names once trimmed, if any.
fn include_of_piece(piece: &str) -> (r: Option<IncludeOption>)
    ensures
        r == include_named(trim_chars(piece@)),
{
    let t = trim(piece);
    let name = t.as_str();
    if str_eq(name, "attachments") {
        Some(IncludeOption::Attachments)
    } else if str_eq(name, "journals") {
        Some(IncludeOption::Journals)
    } else if str_eq(name, "relations") {
        Some(IncludeOption::Relations)
    } else if str_eq(name, "children") {
        Some(IncludeOption::Children)
    } else if str_eq(name, "watchers") {
        Some(IncludeOption::Watchers)
    } else if str_eq(name, "allowed_statuses") {
        Some(IncludeOption::AllowedStatuses)
    } else {
        None
    }
}

impl IncludeOption {
    /// The options named by a comma-separated list; names are trimmed, unknown ones skipped.
    pub fn parse(requested: Option<&str>) -> (v: Vec<IncludeOption>)
        ensures
            v@ == parsed_includes(
                match requested {
                    Some(s) => Some(s@),
                    None => None,
                },
            ),
    {
        let s = match requested {
            Some(s) => s,
            None => return Vec::new(),
        };
        let chars = chars_of(s);
        let n = chars.len();
        if n == 0 {
            return Vec::new();
        }
        let mut out: Vec<IncludeOption> = Vec::new();
        let mut start: usize = 0;
        let mut i: usize = 0;
        let ghost mut done: Seq<Seq<char>> = Seq::empty();
        assert(s@.subrange(0, 0) =~= Seq::<char>::empty());
        assert(split_pieces(Seq::<char>::empty(), ',') == seq![Seq::<char>::empty()]);
        while i < n
            invariant
                n == chars@.len(),
                chars@ == s@,
                start <= i <= n,
                split_pieces(s@.subrange(0, i as int), ',') == done.push(
                    s@.subrange(start as int, i as int),
                ),
                out@ == named_includes(done),
            decreases n - i,
        {
            let c = chars[i];
            proof {
                let p = s@.subrange(0, i + 1);
                assert(p.drop_last() =~= s@.subrange(0, i as int));
                assert(p.last() == c);
            }
            if c == ',' {
                let piece = s.substring_char(start, i);
                let o = include_of_piece(piece);
                proof {
                    let pieces = done.push(s@.subrange(start as int, i as int));
                    assert(pieces.drop_last() =~= done);
                    done = pieces;
                    assert(s@.subrange((i + 1) as int, (i + 1) as int) =~= Seq::<char>::empty());
                }
                match o {
                    Some(opt) => out.push(opt),
                    None => {},
                }
                start = i + 1;
            } else {
                proof {
                    assert(s@.subrange(start as int, i as int).push(c) =~= s@.subrange(
                        start as int,
                        (i + 1) as int,
                    ));
                    assert(done.push(s@.subrange(start as int, i as int)).update(
                        done.len() as int,
                        s@.subrange(start as int, (i + 1) as int),
                    ) =~= done.push(s@.subrange(start as int, (i + 1) as int)));
                }
            }
            i = i + 1;
        }
        let piece = s.substring_char(start, n);
        let o = include_of_piece(piece);
        proof {
            assert(s@.subrange(0, n as int) =~= s@);
            let pieces = done.push(s@.subrange(start as int, n as int));
            assert(pieces.drop_last() =~= done);
        }
        match o {
            Some(opt) => out.push(opt),
            None => {},
        }
        out
    }
}

/// A subtask as an issue shows it.
#[derive(Debug, Clone)]
pub struct ChildIssueSummary {
    pub id: i32,
    pub tracker: NamedId,
    pub subject: String,
}

/// One recorded change, as an issue's history shows it.
#[derive(Debug, Clone)]
pub struct JournalDetailResponse {
    pub property: String,
    pub name: String,
    pub old_value: Option<String>,
    pub new_value: Option<String>,
}

/// How a history shows a recorded change: the key as its name, the values as they are.
pub open spec fn journal_detail_response_of(d: JournalDetail) -> JournalDetailResponse {
    JournalDetailResponse {
        property: d.property,
        name: d.prop_key,
        old_value: d.old_value,
        new_value: d.value,
    }
}

impl From<JournalDetail> for JournalDetailResponse {
    fn from(detail: JournalDetail) -> (r: Self) {
        JournalDetailResponse {
            property: detail.property,
            name: detail.prop_key,
            old_value: detail.old_value,
            new_value: detail.value,
        }
    }
}

impl vstd::std_specs::convert::FromSpecImpl<JournalDetail> for JournalDetailResponse {
    open spec fn obeys_from_spec() -> bool {
        true
    }

    open spec fn from_spec(d: JournalDetail) -> Self {
        journal_detail_response_of(d)
    }
}

/// An entry of an issue's history.
#[derive(Debug, Clone)]
pub struct JournalResponse {
    pub id: i32,
    pub user: NamedId,
    pub notes: Option<String>,
    pub created_on: String,
    pub updated_on: Option<String>,
    pub private_notes: bool,
    pub details: Vec<JournalDetailResponse>,
}

/// A file attached to an issue, with the addresses to download it and its thumbnail.
#[derive(Debug, Clone)]
pub struct AttachmentResponse {
    pub id: i32,
    pub filename: String,
    pub filesize: i32,
    pub content_type: Option<String>,
    pub description: Option<String>,
    pub content_url: String,
    pub thumbnail_url: Option<String>,
    pub author: NamedId,
    pub created_on: Option<String>,
}

/// A relation of an issue to another.
#[derive(Debug, Clone)]
pub struct RelationResponse {
    pub id: i32,
    pub issue_id: i32,
    pub issue_to_id: i32,
    pub relation_type: String,
    pub delay: Option<i32>,
}

/// What is shown of an issue besides its hours: its fields, and its related records by id
/// and name.
#[derive(Debug, Clone)]
pub struct IssueDetails {
    pub id: i32,
    pub project: NamedId,
    pub tracker: NamedId,
    pub status: StatusInfo,
    pub priority: NamedId,
    pub author: NamedId,
    pub assigned_to: Option<NamedId>,
    pub subject: String,
    pub description: Option<String>,
    pub start_date: Option<String>,
    pub due_date: Option<String>,
    pub done_ratio: i32,
    pub is_private: bool,
    pub created_on: Option<String>,
    pub updated_on: Option<String>,
    pub closed_on: Option<String>,
}

/// Shows issues, with the related records asked for, to those who may see them.
#[derive(Debug)]
pub struct GetIssueUseCase {
    base_url: String,
}

/// Whether the details show the issue with the related records that were looked up; each
/// missing record is shown by its id with a fallback name. The assignee is shown only when
/// the issue has one and the user was found.
pub open spec fn issue_described(
    d: IssueDetails,
    issue: Issue,
    project: Option<Project>,
    tracker: Option<Tracker>,
    status: Option<IssueStatus>,
    priority: Option<Enumeration>,
    author: Option<User>,
    assignee: Option<User>,
) -> bool {
    &&& d.id == issue.id
    &&& match project {
        Some(p) => d.project.id == p.id && d.project.name@ == p.name@,
        None => d.project.id == issue.project_id && d.project.name@ == fallback_name(
            "Project "@,
            issue.project_id,
        ),
    }
    &&& match tracker {
        Some(t) => d.tracker.id == t.id && d.tracker.name@ == t.name@,
        None => d.tracker.id == issue.tracker_id && d.tracker.name@ == fallback_name(
            "Tracker "@,
            issue.tracker_id,
        ),
    }
    &&& match status {
        Some(st) => d.status.id == st.id && d.status.name@ == st.name@ && d.status.is_closed
            == st.is_closed,
        None => d.status.id == issue.status_id && d.status.name@ == fallback_name(
            "Status "@,
            issue.status_id,
        ) && !d.status.is_closed,
    }
    &&& match priority {
        Some(p) => d.priority.id == p.id && d.priority.name@ == p.name@,
        None => d.priority.id == issue.priority_id && d.priority.name@ == fallback_name(
            "Priority "@,
            issue.priority_id,
        ),
    }
    &&& user_named(author, issue.author_id, d.author.id, d.author.name@)
    &&& match (issue.assigned_to_id, assignee) {
        (Some(_), Some(u)) => d.assigned_to matches Some(a) && a.id == u.id && a.name@
            == crate::domain::full_name_of(u.firstname@, u.lastname@),
        _ => d.assigned_to is None,
    }
    &&& d.subject == issue.subject
    &&& d.description == issue.description
    &&& d.start_date == issue.start_date
    &&& d.due_date == issue.due_date
    &&& d.done_ratio == issue.done_ratio
    &&& d.is_private == issue.is_private
    &&& d.created_on == issue.created_on
    &&& d.updated_on == issue.updated_on
    &&& d.closed_on == issue.closed_on
}

/// Shows the issue with the related records that were looked up.
pub fn describe_issue(
    issue: &Issue,
    project: &Option<Project>,
    tracker: &Option<Tracker>,
    status: &Option<IssueStatus>,
    priority: &Option<Enumeration>,
    author: &Option<User>,
    assignee: &Option<User>,
) -> (d: IssueDetails)
    ensures
        issue_described(d, *issue, *project, *tracker, *status, *priority, *author, *assignee),
{
    let assigned_to = match issue.assigned_to_id {
        Some(_) => named_user_if_found(assignee),
        None => None,
    };
    IssueDetails {
        id: issue.id,
        project: named_project(project, issue.project_id),
        tracker: named_tracker(tracker, issue.tracker_id),
        status: status_info(status, issue.status_id),
        priority: named_priority(priority, issue.priority_id),
        author: named_user(author, issue.author_id),
        assigned_to,
        subject: issue.subject.clone(),
        description: crate::use_cases::auth::get_current_user::clone_opt(&issue.description),
        start_date: crate::use_cases::auth::get_current_user::clone_opt(&issue.start_date),
        due_date: crate::use_cases::auth::get_current_user::clone_opt(&issue.due_date),
        done_ratio: issue.done_ratio,
        is_private: issue.is_private,
        created_on: crate::use_cases::auth::get_current_user::clone_opt(&issue.created_on),
        updated_on: crate::use_cases::auth::get_current_user::clone_opt(&issue.updated_on),
        closed_on: crate::use_cases::auth::get_current_user::clone_opt(&issue.closed_on),
    }
}

/// Whether a history entry is shown to the user: private notes only to administrators.
pub open spec fn journal_shown(journal: Journal, admin: bool) -> bool {
    !journal.private_notes || admin
}

/// The history entries shown to a user, in order.
pub open spec fn shown_journals(journals: Seq<Journal>, admin: bool) -> Seq<Journal> {
    journals.filter(|j: Journal| journal_shown(j, admin))
}

/// The history entries that the user may see, in order.
pub fn visible_journals(journals: Vec<Journal>, current_user: &CurrentUser) -> (v: Vec<Journal>)
    ensures
        v@ == shown_journals(journals@, current_user.admin),
{
    let ghost all = journals@;
    let ghost keep = |j: Journal| journal_shown(j, current_user.admin);
    let mut out: Vec<Journal> = Vec::new();
    let mut rest = journals;
    let n = rest.len();
    let mut i: usize = 0;
    proof {
        assert(all.take(0).filter(keep) =~= Seq::<Journal>::empty());
    }
    while i < n
        invariant
            n == all.len(),
            i <= n,
            rest@ == all.subrange(i as int, n as int),
            out@ == all.take(i as int).filter(keep),
            keep == (|j: Journal| journal_shown(j, current_user.admin)),
        decreases n - i,
    {
        let j = rest.remove(0);
        proof {
            assert(all.subrange(i as int, n as int)[0] == all[i as int]);
            assert(rest@ =~= all.subrange(i + 1, n as int));
            assert(all.take(i + 1).drop_last() =~= all.take(i as int));
            assert(all.take(i + 1).last() == all[i as int]);
            reveal(Seq::filter);
        }
        if !j.private_notes || current_user.admin {
            out.push(j);
        }
        i = i + 1;
    }
    proof {
        assert(all.take(n as int) =~= all);
    }
    out
}

/// The recorded changes as a history shows them, in order.
pub fn detail_responses(details: Vec<JournalDetail>) -> (v: Vec<JournalDetailResponse>)
    ensures
        v@ == details@.map_values(|d: JournalDetail| journal_detail_response_of(d)),
{
    let ghost all = details@;
    let mut out: Vec<JournalDetailResponse> = Vec::new();
    let mut rest = details;
    let n = rest.len();
    let mut i: usize = 0;
    while i < n
        invariant
            n == all.len(),
            i <= n,
            rest@ == all.subrange(i as int, n as int),
            out@ == all.take(i as int).map_values(|d: JournalDetail| journal_detail_response_of(d)),
        decreases n - i,
    {
        let d = rest.remove(0);
        proof {
            assert(all.subrange(i as int, n as int)[0] == all[i as int]);
            assert(rest@ =~= all.subrange(i + 1, n as int));
        }
        out.push(JournalDetailResponse::from(d));
        proof {
            assert(out@ =~= all.take(i + 1).map_values(
                |d: JournalDetail| journal_detail_response_of(d),
            ));
        }
        i = i + 1;
    }
    proof {
        assert(all.take(n as int) =~= all);
    }
    out
}

/// Shows a history entry: its author named as `named_user` names one, its changes in order.
pub fn journal_response(journal: Journal, user: &Option<User>, details: Vec<JournalDetail>) -> (r:
    JournalResponse)
    ensures
        r.id == journal.id,
        user_named(*user, journal.user_id, r.user.id, r.user.name@),
        r.notes == journal.notes,
        r.created_on == journal.created_on,
        r.updated_on == journal.updated_on,
        r.private_notes == journal.private_notes,
        r.details@ == details@.map_values(|d: JournalDetail| journal_detail_response_of(d)),
{
    let who = named_user(user, journal.user_id);
    JournalResponse {
        id: journal.id,
        user: who,
        notes: journal.notes,
        created_on: journal.created_on,
        updated_on: journal.updated_on,
        private_notes: journal.private_notes,
        details: detail_responses(details),
    }
}

/// Shows a relation: the issue it starts from, the issue it leads to, its type and delay.
pub fn relation_response(relation: IssueRelation) -> (r: RelationResponse)
    ensures
        r.id == relation.id,
        r.issue_id == relation.issue_from_id,
        r.issue_to_id == relation.issue_to_id,
        r.relation_type == relation.relation_type,
        r.delay == relation.delay,
{
    RelationResponse {
        id: relation.id,
        issue_id: relation.issue_from_id,
        issue_to_id: relation.issue_to_id,
        relation_type: relation.relation_type,
        delay: relation.delay,
    }
}

/// Shows a subtask: its id, tracker and subject.
pub fn child_summary(child: &Issue, tracker: &Option<Tracker>) -> (r: ChildIssueSummary)
    ensures
        r.id == child.id,
        match *tracker {
            Some(t) => r.tracker.id == t.id && r.tracker.name@ == t.name@,
            None => r.tracker.id == child.tracker_id && r.tracker.name@ == fallback_name(
                "Tracker "@,
                child.tracker_id,
            ),
        },
        r.subject == child.subject,
{
    ChildIssueSummary {
        id: child.id,
        tracker: named_tracker(tracker, child.tracker_id),
        subject: child.subject.clone(),
    }
}

/// The refusal of a user who may not see an issue of the project.
pub open spec fn issue_view_refusal(
    admin: bool,
    project_id: i32,
    project: Option<Project>,
    member_project_ids: Seq<i32>,
) -> Option<crate::errors::Refusal> {
    view_refusal(
        admin,
        project_id,
        project,
        member_project_ids,
        "You don't have permission to view this issue"@,
    )
}

/// Decides whether the user may see an issue of the project.
pub fn check_issue_visibility(
    current_user: &CurrentUser,
    issue: &Issue,
    project: &Option<Project>,
    member_project_ids: &Vec<i32>,
) -> (r: Result<(), ApplicationError>)
    ensures
        refusal_of(r) == issue_view_refusal(
            current_user.admin,
            issue.project_id,
            *project,
            member_project_ids@,
        ),
{
    check_view_access(
        current_user,
        issue.project_id,
        project,
        member_project_ids,
        "You don't have permission to view this issue",
    )
}

impl GetIssueUseCase {
    pub fn new(base_url: String) -> (u: Self)
        ensures
            u.base_url() == base_url@,
    {
        GetIssueUseCase { base_url }
    }

    /// The address that the links to attachments start with.
    pub closed spec fn base_url(&self) -> Seq<char> {
        self.base_url@
    }

    /// The issue that was looked up, or the error for one that does not exist.
    pub fn require_issue(&self, issue_id: i32, found: Option<Issue>) -> (r: Result<
        Issue,
        ApplicationError,
    >)
        ensures
            match found {
                Some(i) => r == Ok::<Issue, ApplicationError>(i),
                None => refusal_of(r) == Some(issue_not_found(issue_id)),
            },
    {
        match found {
            Some(i) => Ok(i),
            None => Err(issue_not_found_error(issue_id)),
        }
    }

    /// Decides whether the user may see the issue. The project is looked up for a user who is
    /// not an administrator, the memberships only for a project that is not public.
    pub fn check_visibility(
        &self,
        current_user: &CurrentUser,
        issue: &Issue,
        project: &Option<Project>,
        member_project_ids: &Vec<i32>,
    ) -> (r: Result<(), ApplicationError>)
        ensures
            refusal_of(r) == issue_view_refusal(
                current_user.admin,
                issue.project_id,
                *project,
                member_project_ids@,
            ),
    {
        check_issue_visibility(current_user, issue, project, member_project_ids)
    }

    /// Whether the related records of a kind are asked for.
    pub fn includes(&self, requested: &Vec<IncludeOption>, option: IncludeOption) -> (b: bool)
        ensures
            b == requested@.contains(option),
    {
        let mut i: usize = 0;
        while i < requested.len()
            invariant
                i <= requested@.len(),
                forall|k: int| 0 <= k < i ==> requested@[k] != option,
            decreases requested.len() - i,
        {
            if requested[i] == option {
                return true;
            }
            i = i + 1;
        }
        false
    }

    /// Shows the issue with the related records that were looked up.
    pub fn describe(
        &self,
        issue: &Issue,
        project: &Option<Project>,
        tracker: &Option<Tracker>,
        status: &Option<IssueStatus>,
        priority: &Option<Enumeration>,
        author: &Option<User>,
        assignee: &Option<User>,
    ) -> (d: IssueDetails)
        ensures
            issue_described(d, *issue, *project, *tracker, *status, *priority, *author, *assignee),
    {
        describe_issue(issue, project, tracker, status, priority, author, assignee)
    }

    /// Shows an attachment of the issue, with its links and its author.
    pub fn attachment_response(&self, attachment: Attachment, author: &Option<User>) -> (r:
        AttachmentResponse)
        ensures
            r.id == attachment.id,
            r.filename == attachment.filename,
            r.filesize == attachment.filesize,
            r.content_type == attachment.content_type,
            r.description == attachment.description,
            r.created_on == attachment.created_on,
            r.content_url@ == content_url_of(self.base_url(), attachment.id, attachment.filename@),
            match r.thumbnail_url {
                Some(u) => is_thumbnail_image(opt_view(attachment.content_type)) && u@
                    == thumbnail_url_of(self.base_url(), attachment.id),
                None => !is_thumbnail_image(opt_view(attachment.content_type)),
            },
            user_named(*author, attachment.author_id, r.author.id, r.author.name@),
    {
        let url = content_url(self.base_url.as_str(), attachment.id, attachment.filename.as_str());
        let thumb = thumbnail_url(self.base_url.as_str(), attachment.id, &attachment.content_type);
        let who = named_user(author, attachment.author_id);
        AttachmentResponse {
            id: attachment.id,
            filename: attachment.filename,
            filesize: attachment.filesize,
            content_type: attachment.content_type,
            description: attachment.description,
            content_url: url,
            thumbnail_url: thumb,
            author: who,
            created_on: attachment.created_on,
        }
    }

    /// The history entries that the user may see, in order.
    pub fn visible_journals(&self, journals: Vec<Journal>, current_user: &CurrentUser) -> (v: Vec<
        Journal,
    >)
        ensures
            v@ == shown_journals(journals@, current_user.admin),
    {
        visible_journals(journals, current_user)
    }

    /// Shows a history entry with its author and changes.
    pub fn journal_response(&self, journal: Journal, user: &Option<User>, details: Vec<JournalDetail>) -> (r:
        JournalResponse)
        ensures
            r.id == journal.id,
            user_named(*user, journal.user_id, r.user.id, r.user.name@),
            r.notes == journal.notes,
            r.created_on == journal.created_on,
            r.updated_on == journal.updated_on,
            r.private_notes == journal.private_notes,
            r.details@ == details@.map_values(|d: JournalDetail| journal_detail_response_of(d)),
    {
        journal_response(journal, user, details)
    }

    /// Shows a relation of the issue.
    pub fn relation_response(&self, relation: IssueRelation) -> (r: RelationResponse)
        ensures
            r.id == relation.id,
            r.issue_id == relation.issue_from_id,
            r.issue_to_id == relation.issue_to_id,
            r.relation_type == relation.relation_type,
            r.delay == relation.delay,
    {
        relation_response(relation)
    }

    /// Shows a subtask of the issue.
    pub fn child_summary(&self, child: &Issue, tracker: &Option<Tracker>) -> (r: ChildIssueSummary)
        ensures
            r.id == child.id,
            match *tracker {
                Some(t) => r.tracker.id == t.id && r.tracker.name@ == t.name@,
                None => r.tracker.id == child.tracker_id && r.tracker.name@ == fallback_name(
                    "Tracker "@,
                    child.tracker_id,
                ),
            },
            r.subject == child.subject,
    {
        child_summary(child, tracker)
    }
}

/// Private notes are hidden from users who are not administrators: every history entry shown
/// to such a user has no private notes, and every entry without them is shown.
pub proof fn lemma_private_notes_hidden(journals: Seq<Journal>, admin: bool)
    requires
        !admin,
    ensures
        forall|k: int|
            0 <= k < shown_journals(journals, admin).len() ==> !(#[trigger] shown_journals(
                journals,
                admin,
            )[k]).private_notes,
        forall|k: int|
            0 <= k < journals.len() && !(#[trigger] journals[k]).private_notes ==> shown_journals(
                journals,
                admin,
            ).contains(journals[k]),
{
    let keep = |j: Journal| journal_shown(j, admin);
    let shown = journals.filter(keep);
    assert(shown == shown_journals(journals, admin));
    assert forall|k: int| 0 <= k < shown.len() implies !(#[trigger] shown[k]).private_notes by {
        journals.lemma_filter_pred(keep, k);
    }
    assert forall|k: int|
        0 <= k < journals.len() && !(#[trigger] journals[k]).private_notes implies shown.contains(
        journals[k],
    ) by {
        journals.lemma_filter_contains(keep, k);
    }
}

/// Private notes are shown only to administrators: every history entry shown to a user who is
/// not an administrator is public, every public entry is shown to everyone, and an
/// administrator sees every entry.
pub proof fn private_notes_shown_only_to_administrators(journals: Seq<Journal>, admin: bool)
    ensures
        forall|k: int|
            0 <= k < shown_journals(journals, admin).len() ==> admin
                || !(#[trigger] shown_journals(journals, admin)[k]).private_notes,
        forall|k: int|
            0 <= k < journals.len() && (admin || !journals[k].private_notes) ==> shown_journals(
                journals,
                admin,
            ).contains(#[trigger] journals[k]),
        shown_journals(journals, admin).len() <= journals.len(),
{
    let keep = |j: Journal| journal_shown(j, admin);
    journals.filter_lemma(keep);
    journals.lemma_filter_len(keep);
    assert forall|k: int|
        0 <= k < journals.len() && (admin || !journals[k].private_notes) implies shown_journals(
        journals,
        admin,
    ).contains(#[trigger] journals[k]) by {
        journals.lemma_filter_contains(keep, k);
    }
}

} // verus!
