use vstd::prelude::*;

verus! {

/// What is needed to store a new issue category.
#[derive(Debug, Clone)]
pub struct NewIssueCategory {
    pub project_id: i32,
    pub name: String,
    pub assigned_to_id: Option<i32>,
}

/// The changes to make to an issue category; `None` leaves a field as it is.
#[derive(Debug, Clone)]
pub struct IssueCategoryUpdate {
    pub name: Option<String>,
    pub assigned_to_id: Option<Option<i32>>,
}

/// What is needed to store a new issue status.
#[derive(Debug, Clone)]
pub struct NewIssueStatus {
    pub name: String,
    pub position: Option<i32>,
    pub is_closed: bool,
    pub is_default: bool,
    pub default_done_ratio: Option<i32>,
}

} // verus!

verus! {

/// A user is active.
pub const USER_STATUS_ACTIVE: i32 = 1;

/// A user registered but is not yet active.
pub const USER_STATUS_REGISTERED: i32 = 2;

/// A user is locked out.
pub const USER_STATUS_LOCKED: i32 = 3;

/// A project is active.
pub const PROJECT_STATUS_ACTIVE: i32 = 1;

/// A project is closed.
pub const PROJECT_STATUS_CLOSED: i32 = 5;

/// A project is archived.
pub const PROJECT_STATUS_ARCHIVED: i32 = 9;

/// The user on whose behalf a request runs.
#[derive(Debug, Clone)]
pub struct CurrentUser {
    pub id: i32,
    pub login: String,
    pub admin: bool,
}

/// A project, as far as the application rules read it.
#[derive(Debug, Clone)]
pub struct Project {
    pub id: i32,
    pub name: String,
    pub is_public: bool,
    /// 1 active, 5 closed, 9 archived.
    pub status: i32,
}

/// A user account. Times are held as their RFC 3339 text.
#[derive(Debug, Clone)]
pub struct User {
    pub id: i32,
    pub login: String,
    pub firstname: String,
    pub lastname: String,
    pub admin: bool,
    /// 1 active, 2 registered, 3 locked.
    pub status: i32,
    pub hashed_password: Option<String>,
    pub salt: Option<String>,
    pub created_on: Option<String>,
    pub updated_on: Option<String>,
    pub last_login_on: Option<String>,
    pub passwd_changed_on: Option<String>,
    pub twofa_scheme: Option<String>,
}

/// The display name of a person: first name, a space, last name.
pub open spec fn full_name_of(firstname: Seq<char>, lastname: Seq<char>) -> Seq<char> {
    firstname + seq![' '] + lastname
}

impl User {
    /// First name and last name, separated by a space.
    pub fn full_name(&self) -> (s: String)
        ensures
            s@ == full_name_of(self.firstname@, self.lastname@),
    {
        proof {
            reveal_strlit(" ");
        }
        crate::errors::framed(self.firstname.as_str(), " ", self.lastname.as_str())
    }
}

/// An e-mail address of a user.
#[derive(Debug, Clone)]
pub struct EmailAddress {
    pub address: String,
}

/// An issue. Dates are held as their `YYYY-MM-DD` text and times as their RFC 3339 text;
/// the estimated hours, a floating-point number, are not held here.
#[derive(Debug, Clone)]
pub struct Issue {
    pub id: i32,
    pub project_id: i32,
    pub tracker_id: i32,
    pub status_id: i32,
    pub priority_id: i32,
    pub author_id: i32,
    pub assigned_to_id: Option<i32>,
    pub category_id: Option<i32>,
    pub parent_id: Option<i32>,
    pub subject: String,
    pub description: Option<String>,
    pub start_date: Option<String>,
    pub due_date: Option<String>,
    pub done_ratio: i32,
    pub is_private: bool,
    pub created_on: Option<String>,
    pub updated_on: Option<String>,
    pub closed_on: Option<String>,
}

/// A file attached to an issue or a project. The creation time is held as its RFC 3339 text.
#[derive(Debug, Clone)]
pub struct Attachment {
    pub id: i32,
    pub container_id: Option<i32>,
    /// `Issue` or `Project`.
    pub container_type: Option<String>,
    pub filename: String,
    pub disk_filename: String,
    pub disk_directory: Option<String>,
    pub filesize: i32,
    pub content_type: Option<String>,
    /// Digest of the content, shared by attachments that share a stored file.
    pub digest: Option<String>,
    pub description: Option<String>,
    pub author_id: i32,
    pub created_on: Option<String>,
}

/// A status that issues can be in.
#[derive(Debug, Clone)]
pub struct IssueStatus {
    pub id: i32,
    pub name: String,
    pub position: Option<i32>,
    pub is_closed: bool,
    pub is_default: bool,
    pub default_done_ratio: Option<i32>,
}

/// A kind of issue.
#[derive(Debug, Clone)]
pub struct Tracker {
    pub id: i32,
    pub name: String,
    pub default_status_id: i32,
}

/// An entry of an enumeration, such as an issue priority.
#[derive(Debug, Clone)]
pub struct Enumeration {
    pub id: i32,
    pub name: String,
    pub is_default: bool,
    pub active: bool,
}

/// A category of issues within a project.
#[derive(Debug, Clone)]
pub struct IssueCategory {
    pub id: i32,
    pub project_id: i32,
    pub name: String,
    pub assigned_to_id: Option<i32>,
}

/// A role that members hold.
#[derive(Debug, Clone)]
pub struct Role {
    pub id: i32,
    pub name: String,
}

/// A role of a member, and the membership of a parent project it comes from, if any.
#[derive(Debug, Clone)]
pub struct RoleWithInheritance {
    pub role: Role,
    pub inherited_from: Option<i32>,
}

impl RoleWithInheritance {
    /// Whether the role comes from a parent project.
    pub fn is_inherited(&self) -> (b: bool)
        ensures
            b == self.inherited_from is Some,
    {
        self.inherited_from.is_some()
    }
}

/// A membership of a user in a project.
#[derive(Debug, Clone)]
pub struct Member {
    pub id: i32,
    pub project_id: i32,
    pub user_id: i32,
}

/// A membership with its user and roles.
#[derive(Debug, Clone)]
pub struct MemberWithRoles {
    pub member: Member,
    pub user: User,
    pub roles: Vec<RoleWithInheritance>,
}

/// An entry of an issue's history. Times are held as their RFC 3339 text.
#[derive(Debug, Clone)]
pub struct Journal {
    pub id: i32,
    pub user_id: i32,
    pub notes: Option<String>,
    pub private_notes: bool,
    pub created_on: String,
    pub updated_on: Option<String>,
}

/// One change recorded in a history entry.
#[derive(Debug, Clone)]
pub struct JournalDetail {
    pub property: String,
    pub prop_key: String,
    pub old_value: Option<String>,
    pub value: Option<String>,
}

/// A relation between two issues.
#[derive(Debug, Clone)]
pub struct IssueRelation {
    pub id: i32,
    pub issue_from_id: i32,
    pub issue_to_id: i32,
    pub relation_type: String,
    pub delay: Option<i32>,
}

/// A stored token, such as an API key.
#[derive(Debug, Clone)]
pub struct Token {
    pub value: String,
}

/// Where files are stored and how large they may be.
#[derive(Debug, Clone)]
pub struct StorageConfig {
    pub path: String,
    /// Largest accepted file, in bytes.
    pub max_file_size: u64,
}

/// What is needed to store a new attachment.
#[derive(Debug, Clone)]
pub struct NewAttachment {
    pub container_id: Option<i32>,
    pub container_type: Option<String>,
    pub filename: String,
    pub disk_filename: String,
    pub filesize: i64,
    pub content_type: Option<String>,
    pub digest: Option<String>,
    pub author_id: i32,
    pub description: Option<String>,
    pub disk_directory: Option<String>,
}

/// What went wrong when a file was stored, read or removed.
#[derive(Debug, Clone)]
pub enum StorageError {
    NotFound(String),
    Io(String),
    InvalidFilename(String),
}

/// Where a stored file went.
#[derive(Debug, Clone)]
pub struct SaveResult {
    pub disk_directory: String,
    pub disk_filename: String,
    pub digest: String,
}

} // verus!

verus! {

/// What happens to an issue's closing time when it is updated.
#[derive(Debug, Clone, Copy, PartialEq, Eq, Structural)]
pub enum ClosedOnChange {
    /// The closing time stays as it is.
    Keep,
    /// The issue closes now.
    CloseNow,
    /// The issue is open again: the closing time is cleared.
    Reopen,
}

/// The changes to make to an issue; `None` leaves a field as it is. Dates are held as their
/// `YYYY-MM-DD` text; the time of the update and the estimated hours travel beside this value.
#[derive(Debug, Clone)]
pub struct IssueUpdate {
    pub subject: Option<String>,
    pub description: Option<String>,
    pub status_id: Option<i32>,
    pub priority_id: Option<i32>,
    pub tracker_id: Option<i32>,
    pub assigned_to_id: Option<Option<i32>>,
    pub category_id: Option<Option<i32>>,
    pub parent_id: Option<Option<i32>>,
    pub start_date: Option<Option<String>>,
    pub due_date: Option<Option<String>>,
    pub done_ratio: Option<i32>,
    pub is_private: Option<bool>,
    pub closed_on: ClosedOnChange,
}

/// A new entry of an issue's history.
#[derive(Debug, Clone)]
pub struct NewJournal {
    pub journalized_id: i32,
    pub journalized_type: String,
    pub user_id: i32,
    pub notes: Option<String>,
    pub private_notes: bool,
}

/// One change to record in a new history entry.
#[derive(Debug, Clone)]
pub struct NewJournalDetail {
    pub journal_id: i32,
    pub property: String,
    pub prop_key: String,
    pub old_value: Option<String>,
    pub value: Option<String>,
}

/// What is needed to store a new issue. Dates are held as their `YYYY-MM-DD` text; the
/// estimated hours travel beside this value.
#[derive(Debug, Clone)]
pub struct NewIssue {
    pub tracker_id: i32,
    pub project_id: i32,
    pub subject: String,
    pub description: Option<String>,
    pub due_date: Option<String>,
    pub category_id: Option<i32>,
    pub status_id: i32,
    pub assigned_to_id: Option<i32>,
    pub priority_id: i32,
    pub author_id: i32,
    pub start_date: Option<String>,
    pub parent_id: Option<i32>,
    pub is_private: bool,
}

} // verus!

verus! {

/// A membership to store: the user joins the project.
#[derive(Debug, Clone)]
pub struct NewMember {
    pub user_id: i32,
    pub project_id: i32,
    pub mail_notification: bool,
}

/// A role to give to a membership, and the membership of a parent project it comes from, if
/// any.
#[derive(Debug, Clone, Copy, PartialEq, Eq, Structural)]
pub struct RoleAssignment {
    pub member_id: i32,
    pub role_id: i32,
    pub inherited_from: Option<i32>,
}

} // verus!
