use crate::domain::{Attachment, CurrentUser, Issue, Project};
use crate::errors::{framed_number, literal, ApplicationError, ErrorKind, Refusal, refusal_of};
use crate::text::{contains_i32, decimal, str_eq};
use vstd::prelude::*;

verus! {

/// The refusal for a project that does not exist.
pub open spec fn project_not_found(project_id: i32) -> Refusal {
    (ErrorKind::NotFound, "Project "@ + decimal(project_id as int) + " not found"@)
}

/// The refusal for an issue that does not exist.
pub open spec fn issue_not_found(issue_id: i32) -> Refusal {
    (ErrorKind::NotFound, "Issue "@ + decimal(issue_id as int) + " not found"@)
}

/// Who may see a project's content: an administrator; anyone when the project is public;
/// a member of the project otherwise.
pub open spec fn view_refusal(
    admin: bool,
    project_id: i32,
    project: Option<Project>,
    member_project_ids: Seq<i32>,
    denial: Seq<char>,
) -> Option<Refusal> {
    if admin {
        None
    } else {
        match project {
            None => Some(project_not_found(project_id)),
            Some(p) => if p.is_public || member_project_ids.contains(project_id) {
                None
            } else {
                Some((ErrorKind::Forbidden, denial))
            },
        }
    }
}

/// Who may manage a project's files: an administrator; a member of the project;
/// anyone when the project is public.
pub open spec fn manage_refusal(
    admin: bool,
    project_id: i32,
    is_member: bool,
    project: Option<Project>,
    denial: Seq<char>,
) -> Option<Refusal> {
    if admin || is_member {
        None
    } else {
        match project {
            None => Some(project_not_found(project_id)),
            Some(p) => if p.is_public {
                None
            } else {
                Some((ErrorKind::Forbidden, denial))
            },
        }
    }
}

/// The error for a project that does not exist.
pub fn project_not_found_error(project_id: i32) -> (e: ApplicationError)
    ensures
        refusal_of::<()>(Err(e)) == Some(project_not_found(project_id)),
{
    ApplicationError::NotFound(framed_number("Project ", project_id, " not found"))
}

/// The error for an issue that does not exist.
pub fn issue_not_found_error(issue_id: i32) -> (e: ApplicationError)
    ensures
        refusal_of::<()>(Err(e)) == Some(issue_not_found(issue_id)),
{
    ApplicationError::NotFound(framed_number("Issue ", issue_id, " not found"))
}

/// The project that was looked up, or the error for one that does not exist.
pub fn require_project(found: Option<Project>) -> (r: Result<Project, ApplicationError>)
    ensures
        match found {
            Some(p) => r == Ok::<Project, ApplicationError>(p),
            None => refusal_of(r) == Some((ErrorKind::NotFound, "Project not found"@)),
        },
{
    match found {
        Some(p) => Ok(p),
        None => Err(ApplicationError::NotFound(literal("Project not found"))),
    }
}

/// Whether the project must be looked up to decide on view access: for anyone but an administrator.
pub fn view_needs_project(user: &CurrentUser) -> (b: bool)
    ensures
        b == !user.admin,
{
    !user.admin
}

/// Whether the projects that the user is a member of must be listed to decide on view access:
/// when the project exists and is not public.
pub fn view_needs_memberships(project: &Option<Project>) -> (b: bool)
    ensures
        b == (project matches Some(p) && !p.is_public),
{
    match project {
        Some(p) => !p.is_public,
        None => false,
    }
}

/// Decides whether the user may see the content of a project. The project and the list of
/// the user's projects are read only where `view_needs_project` and `view_needs_memberships`
/// ask for them.
pub fn check_view_access(
    user: &CurrentUser,
    project_id: i32,
    project: &Option<Project>,
    member_project_ids: &Vec<i32>,
    denial: &str,
) -> (r: Result<(), ApplicationError>)
    ensures
        refusal_of(r) == view_refusal(
            user.admin,
            project_id,
            *project,
            member_project_ids@,
            denial@,
        ),
{
    if user.admin {
        return Ok(());
    }
    match project {
        None => Err(project_not_found_error(project_id)),
        Some(p) => {
            if p.is_public || contains_i32(member_project_ids, project_id) {
                Ok(())
            } else {
                Err(ApplicationError::Forbidden(literal(denial)))
            }
        },
    }
}

/// Whether the project must be looked up to decide on file management: for a user who is
/// neither an administrator nor a member.
pub fn manage_needs_project(user: &CurrentUser, is_member: bool) -> (b: bool)
    ensures
        b == (!user.admin && !is_member),
{
    !user.admin && !is_member
}

/// Decides whether the user may manage the files of a project. Membership is asked only of
/// users who are not administrators, and the project is read only where `manage_needs_project`
/// asks for it.
pub fn check_manage_access(
    user: &CurrentUser,
    project_id: i32,
    is_member: bool,
    project: &Option<Project>,
    denial: &str,
) -> (r: Result<(), ApplicationError>)
    ensures
        refusal_of(r) == manage_refusal(user.admin, project_id, is_member, *project, denial@),
{
    if user.admin || is_member {
        return Ok(());
    }
    match project {
        None => Err(project_not_found_error(project_id)),
        Some(p) => if p.is_public {
            Ok(())
        } else {
            Err(ApplicationError::Forbidden(literal(denial)))
        },
    }
}

/// What an attachment belongs to.
#[derive(Debug, Clone, Copy, PartialEq, Eq, Structural)]
pub enum ContainerTarget {
    Issue(i32),
    Project(i32),
    Missing,
}

/// What an attachment belongs to: an issue or a project when both the type and the id are set.
pub open spec fn container_target_of(a: Attachment) -> ContainerTarget {
    match (a.container_type, a.container_id) {
        (Some(t), Some(id)) => if t@ == "Issue"@ {
            ContainerTarget::Issue(id)
        } else if t@ == "Project"@ {
            ContainerTarget::Project(id)
        } else {
            ContainerTarget::Missing
        },
        _ => ContainerTarget::Missing,
    }
}

/// What the attachment belongs to.
pub fn container_target(a: &Attachment) -> (t: ContainerTarget)
    ensures
        t == container_target_of(*a),
{
    match (&a.container_type, a.container_id) {
        (Some(t), Some(id)) => if str_eq(t.as_str(), "Issue") {
            ContainerTarget::Issue(id)
        } else if str_eq(t.as_str(), "Project") {
            ContainerTarget::Project(id)
        } else {
            ContainerTarget::Missing
        },
        _ => ContainerTarget::Missing,
    }
}

/// The project whose rules apply to an attachment: the project of its issue, or its project.
pub open spec fn attachment_project_of(target: ContainerTarget, issue: Option<Issue>) -> Option<
    i32,
> {
    match target {
        ContainerTarget::Issue(_) => match issue {
            Some(i) => Some(i.project_id),
            None => None,
        },
        ContainerTarget::Project(pid) => Some(pid),
        ContainerTarget::Missing => None,
    }
}

/// The project whose rules apply to an attachment, once its issue has been read.
pub fn attachment_project(target: ContainerTarget, issue: &Option<Issue>) -> (p: Option<i32>)
    ensures
        p == attachment_project_of(target, *issue),
{
    match target {
        ContainerTarget::Issue(_) => match issue {
            Some(i) => Some(i.project_id),
            None => None,
        },
        ContainerTarget::Project(pid) => Some(pid),
        ContainerTarget::Missing => None,
    }
}

/// The refusal for an attachment that belongs to nothing.
pub open spec fn no_container() -> Refusal {
    (ErrorKind::Forbidden, "Attachment has no associated container"@)
}

/// Who may see an attachment: an administrator; otherwise whoever may see the project of the
/// attachment's issue, or of the attachment itself.
pub open spec fn attachment_view_refusal(
    admin: bool,
    target: ContainerTarget,
    issue: Option<Issue>,
    project: Option<Project>,
    member_project_ids: Seq<i32>,
    denial: Seq<char>,
) -> Option<Refusal> {
    if admin {
        None
    } else {
        match target {
            ContainerTarget::Missing => Some(no_container()),
            ContainerTarget::Issue(iid) => match issue {
                None => Some(issue_not_found(iid)),
                Some(i) => view_refusal(false, i.project_id, project, member_project_ids, denial),
            },
            ContainerTarget::Project(pid) => view_refusal(
                false,
                pid,
                project,
                member_project_ids,
                denial,
            ),
        }
    }
}

/// Who may change or remove an attachment: an administrator; otherwise whoever may manage
/// the files of the project of the attachment's issue, or of the attachment itself.
pub open spec fn attachment_manage_refusal(
    admin: bool,
    target: ContainerTarget,
    issue: Option<Issue>,
    is_member: bool,
    project: Option<Project>,
    denial: Seq<char>,
) -> Option<Refusal> {
    if admin {
        None
    } else {
        match target {
            ContainerTarget::Missing => Some(no_container()),
            ContainerTarget::Issue(iid) => match issue {
                None => Some(issue_not_found(iid)),
                Some(i) => manage_refusal(false, i.project_id, is_member, project, denial),
            },
            ContainerTarget::Project(pid) => manage_refusal(
                false,
                pid,
                is_member,
                project,
                denial,
            ),
        }
    }
}

/// Decides whether the user may see the attachment. The issue is read for an attachment of an
/// issue; the project and memberships of the resulting project as `check_view_access` asks.
pub fn check_attachment_view(
    user: &CurrentUser,
    attachment: &Attachment,
    issue: &Option<Issue>,
    project: &Option<Project>,
    member_project_ids: &Vec<i32>,
    denial: &str,
) -> (r: Result<(), ApplicationError>)
    ensures
        refusal_of(r) == attachment_view_refusal(
            user.admin,
            container_target_of(*attachment),
            *issue,
            *project,
            member_project_ids@,
            denial@,
        ),
{
    if user.admin {
        return Ok(());
    }
    match container_target(attachment) {
        ContainerTarget::Missing => Err(
            ApplicationError::Forbidden(literal("Attachment has no associated container")),
        ),
        ContainerTarget::Issue(iid) => match issue {
            None => Err(issue_not_found_error(iid)),
            Some(i) => check_view_access(user, i.project_id, project, member_project_ids, denial),
        },
        ContainerTarget::Project(pid) => check_view_access(
            user,
            pid,
            project,
            member_project_ids,
            denial,
        ),
    }
}

/// Decides whether the user may change or remove the attachment. The issue is read for an
/// attachment of an issue; membership and the project of the resulting project as
/// `check_manage_access` asks.
pub fn check_attachment_manage(
    user: &CurrentUser,
    attachment: &Attachment,
    issue: &Option<Issue>,
    is_member: bool,
    project: &Option<Project>,
    denial: &str,
) -> (r: Result<(), ApplicationError>)
    ensures
        refusal_of(r) == attachment_manage_refusal(
            user.admin,
            container_target_of(*attachment),
            *issue,
            is_member,
            *project,
            denial@,
        ),
{
    if user.admin {
        return Ok(());
    }
    match container_target(attachment) {
        ContainerTarget::Missing => Err(
            ApplicationError::Forbidden(literal("Attachment has no associated container")),
        ),
        ContainerTarget::Issue(iid) => match issue {
            None => Err(issue_not_found_error(iid)),
            Some(i) => check_manage_access(user, i.project_id, is_member, project, denial),
        },
        ContainerTarget::Project(pid) => check_manage_access(
            user,
            pid,
            is_member,
            project,
            denial,
        ),
    }
}

/// An administrator may see every project's content.
pub proof fn lemma_admin_may_view(
    project_id: i32,
    project: Option<Project>,
    ids: Seq<i32>,
    denial: Seq<char>,
)
    ensures
        view_refusal(true, project_id, project, ids, denial) is None,
{
}

/// A user who is not an administrator may see an existing project's content exactly when the
/// project is public or the user is one of its members.
pub proof fn lemma_view_rule(project_id: i32, p: Project, ids: Seq<i32>, denial: Seq<char>)
    ensures
        view_refusal(false, project_id, Some(p), ids, denial) is None <==> (p.is_public
            || ids.contains(project_id)),
{
}

/// Whoever may see a project's content may also manage its files: the file rule lets members
/// and every user of a public project through.
pub proof fn lemma_view_implies_manage(
    admin: bool,
    project_id: i32,
    project: Option<Project>,
    ids: Seq<i32>,
    denial: Seq<char>,
)
    requires
        view_refusal(admin, project_id, project, ids, denial) is None,
    ensures
        manage_refusal(admin, project_id, ids.contains(project_id), project, denial) is None,
{
}

/// Who may see a project's content: administrators always; anyone else only when the project
/// exists and is public or they are a member. A missing project is reported as not found, a
/// private one that the user is no member of as forbidden, with the given message.
pub proof fn view_access_rule(
    admin: bool,
    project_id: i32,
    project: Option<Project>,
    member_project_ids: Seq<i32>,
    denial: Seq<char>,
)
    ensures
        view_refusal(admin, project_id, project, member_project_ids, denial) is None <==> (admin
            || (project matches Some(p) && (p.is_public || member_project_ids.contains(project_id)))),
        !admin && project is None ==> view_refusal(
            admin,
            project_id,
            project,
            member_project_ids,
            denial,
        ) == Some((ErrorKind::NotFound, "Project "@ + decimal(project_id as int) + " not found"@)),
        !admin && (project matches Some(p) && !p.is_public) && !member_project_ids.contains(
            project_id,
        ) ==> view_refusal(admin, project_id, project, member_project_ids, denial) == Some(
            (ErrorKind::Forbidden, denial),
        ),
{
}

/// Who may manage a project's files: administrators, members of the project, and anyone when
/// the project is public. A missing project is reported as not found, a private one as
/// forbidden, with the given message.
pub proof fn manage_access_rule(
    admin: bool,
    project_id: i32,
    is_member: bool,
    project: Option<Project>,
    denial: Seq<char>,
)
    ensures
        manage_refusal(admin, project_id, is_member, project, denial) is None <==> (admin
            || is_member || (project matches Some(p) && p.is_public)),
        !admin && !is_member && project is None ==> manage_refusal(
            admin,
            project_id,
            is_member,
            project,
            denial,
        ) == Some((ErrorKind::NotFound, "Project "@ + decimal(project_id as int) + " not found"@)),
        !admin && !is_member && (project matches Some(p) && !p.is_public) ==> manage_refusal(
            admin,
            project_id,
            is_member,
            project,
            denial,
        ) == Some((ErrorKind::Forbidden, denial)),
{
}

/// Who may see an attachment: administrators always. Anyone else needs the attachment to
/// belong to an issue or a project; for an issue, the issue must exist, and the rule for
/// seeing the content of the project it belongs to then decides.
pub proof fn attachment_view_rule(
    admin: bool,
    target: ContainerTarget,
    issue: Option<Issue>,
    project: Option<Project>,
    member_project_ids: Seq<i32>,
    denial: Seq<char>,
)
    ensures
        admin ==> attachment_view_refusal(
            admin,
            target,
            issue,
            project,
            member_project_ids,
            denial,
        ) is None,
        !admin && target is Missing ==> attachment_view_refusal(
            admin,
            target,
            issue,
            project,
            member_project_ids,
            denial,
        ) == Some((ErrorKind::Forbidden, "Attachment has no associated container"@)),
        forall|iid: i32|
            !admin && target == ContainerTarget::Issue(iid) && issue is None
                ==> #[trigger] attachment_view_refusal(
                admin,
                ContainerTarget::Issue(iid),
                issue,
                project,
                member_project_ids,
                denial,
            ) == Some((ErrorKind::NotFound, "Issue "@ + decimal(iid as int) + " not found"@)),
        !admin ==> (attachment_view_refusal(
            admin,
            target,
            issue,
            project,
            member_project_ids,
            denial,
        ) is None <==> (match target {
            ContainerTarget::Missing => false,
            ContainerTarget::Issue(_) => issue matches Some(i) && (project matches Some(p) && (
            p.is_public || member_project_ids.contains(i.project_id))),
            ContainerTarget::Project(pid) => project matches Some(p) && (p.is_public
                || member_project_ids.contains(pid)),
        })),
{
}

/// Who may change or remove an attachment: administrators always. Anyone else needs the
/// attachment to belong to an issue or a project; for an issue, the issue must exist, and then
/// members of the project may, and anyone may when the project is public.
pub proof fn attachment_manage_rule(
    admin: bool,
    target: ContainerTarget,
    issue: Option<Issue>,
    is_member: bool,
    project: Option<Project>,
    denial: Seq<char>,
)
    ensures
        admin ==> attachment_manage_refusal(admin, target, issue, is_member, project, denial) is None,
        !admin && target is Missing ==> attachment_manage_refusal(
            admin,
            target,
            issue,
            is_member,
            project,
            denial,
        ) == Some((ErrorKind::Forbidden, "Attachment has no associated container"@)),
        !admin ==> (attachment_manage_refusal(admin, target, issue, is_member, project, denial)
            is None <==> (match target {
            ContainerTarget::Missing => false,
            ContainerTarget::Issue(_) => issue is Some && (is_member || (project matches Some(p)
                && p.is_public)),
            ContainerTarget::Project(_) => is_member || (project matches Some(p) && p.is_public),
        })),
{
}

} // verus!
