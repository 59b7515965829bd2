//! Report-review use-cases.
//!
//! [`ReportService`] drives the trainee → signer workflow. The report itself
//! owns which transitions are legal; this module owns what the report does not:
//! **authorization** (only the author drafts, revises and submits; only a signer
//! in the report's department signs or rejects; instructors read every queue but
//! never decide) and the requirement that a signature is on file before a
//! submit or a sign-off.

use vstd::prelude::*;

use crate::errors::DomainError;
use crate::models::ids::{DepartmentId, ReportId, UserId};
use crate::models::report::{Report, ReviewStatus, StatusView};
use crate::models::signature::StoredSignature;
use crate::models::time::Timestamp;
use crate::models::users::{role_matches, DirectoryMarker, Role, User};
use crate::models::week::{iso_week_text, IsoWeek};

verus! {

/// Drives the report submit → sign workflow over report storage `R`, user
/// storage `U`, an id generator `I`, and signature storage `S`.
#[derive(Debug, Clone)]
pub struct ReportService<R, U, I, S> {
    reports: R,
    users: U,
    ids: I,
    signatures: S,
}

impl<R, U, I, S> ReportService<R, U, I, S> {
    /// Wire the service to its storage, id-generation, and signature backends.
    pub fn new(reports: R, users: U, ids: I, signatures: S) -> (r: Self)
        ensures
            r.parts() == (reports, users, ids, signatures),
    {
        ReportService { reports, users, ids, signatures }
    }

    /// The backends the service was wired to.
    pub closed spec fn parts(&self) -> (R, U, I, S) {
        (self.reports, self.users, self.ids, self.signatures)
    }

    /// Report storage.
    pub fn reports(&self) -> (r: &R)
        ensures
            *r == self.parts().0,
    {
        &self.reports
    }

    /// User storage.
    pub fn users(&self) -> (r: &U)
        ensures
            *r == self.parts().1,
    {
        &self.users
    }

    /// The id generator.
    pub fn ids(&self) -> (r: &I)
        ensures
            *r == self.parts().2,
    {
        &self.ids
    }

    /// Signature storage.
    pub fn signatures(&self) -> (r: &S)
        ensures
            *r == self.parts().3,
    {
        &self.signatures
    }
}

/// The message of a missing user.
pub open spec fn missing_user_message(id: Seq<char>) -> Seq<char> {
    "user "@ + id
}

/// The acting user's effective role, from the user that was looked up for
/// `id`: a missing user is [`DomainError::NotFound`], an inert one (no
/// department) [`DomainError::Forbidden`].
pub fn role_of(user: Option<User>, id: &UserId) -> (r: Result<Role, DomainError>)
    ensures
        match user {
            None => r matches Err(e) && e is NotFound && e.message() == missing_user_message(id@),
            Some(u) => match u@.department {
                None => r matches Err(e) && e is Forbidden && e.message()
                    == "you have no department assigned"@,
                Some(d) => r matches Ok(role) && role_matches(Some(role), u@.marker, u@.department),
            },
        },
{
    match user {
        None => Err(DomainError::NotFound(missing_user(id))),
        Some(u) => match u.role() {
            Some(role) => Ok(role),
            None => Err(
                DomainError::Forbidden(String::from_str("you have no department assigned")),
            ),
        },
    }
}

/// The text `"user <id>"`.
pub fn missing_user(id: &UserId) -> (r: String)
    ensures
        r@ == missing_user_message(id@),
{
    let mut message = String::from_str("user ");
    message.append(id.as_str());
    message
}

/// The user that was looked up for `id`, or [`DomainError::NotFound`].
pub fn found_user(user: Option<User>, id: &UserId) -> (r: Result<User, DomainError>)
    ensures
        match user {
            None => r matches Err(e) && e is NotFound && e.message() == missing_user_message(id@),
            Some(u) => r matches Ok(v) && v@ == u@,
        },
{
    match user {
        Some(u) => Ok(u),
        None => Err(DomainError::NotFound(missing_user(id))),
    }
}

/// The department a new draft is filed into: only a trainee may author a
/// report, into their own department; anyone else is
/// [`DomainError::Forbidden`].
pub fn authoring_department(role: Role) -> (r: Result<DepartmentId, DomainError>)
    ensures
        match role {
            Role::Trainee { department } => r matches Ok(d) && d@ == department@,
            _ => r matches Err(e) && e is Forbidden && e.message()
                == "only a trainee may author a report"@,
        },
{
    match role {
        Role::Trainee { department } => Ok(department),
        _ => Err(DomainError::Forbidden(String::from_str("only a trainee may author a report"))),
    }
}

/// Whether one of `reports` covers `week`.
pub open spec fn covers_week(reports: Seq<Report>, week: IsoWeek) -> bool {
    exists|i: int| 0 <= i < reports.len() && #[trigger] reports[i]@.week == week
}

/// One report per trainee per week: given the author's reports, a draft for
/// `week` conflicts exactly when one of them already covers it.
pub fn ensure_week_free(authored: &Vec<Report>, week: IsoWeek) -> (r: Result<(), DomainError>)
    ensures
        r is Ok <==> !covers_week(authored@, week),
        r matches Err(e) ==> e is Conflict && e.message() == "a report already exists for "@
            + iso_week_text(week.year_spec(), week.week_spec()),
{
    let mut i: usize = 0;
    while i < authored.len()
        invariant
            i <= authored.len(),
            forall|j: int| 0 <= j < i ==> authored@[j]@.week != week,
        decreases authored.len() - i,
    {
        if *authored[i].week() == week {
            let mut message = String::from_str("a report already exists for ");
            let text = week.to_string();
            message.append(text.as_str());
            return Err(DomainError::Conflict(message));
        }
        i = i + 1;
    }
    Ok(())
}

/// The message of a missing report.
pub open spec fn missing_report_message(id: Seq<char>) -> Seq<char> {
    "report "@ + id
}

/// The report that was looked up for `id`, or [`DomainError::NotFound`].
pub fn found_report(report: Option<Report>, id: &ReportId) -> (r: Result<Report, DomainError>)
    ensures
        match report {
            None => r matches Err(e) && e is NotFound && e.message() == missing_report_message(
                id@,
            ),
            Some(rep) => r matches Ok(v) && v@ == rep@,
        },
{
    match report {
        Some(rep) => Ok(rep),
        None => {
            let mut message = String::from_str("report ");
            message.append(id.as_str());
            Err(DomainError::NotFound(message))
        },
    }
}

/// Author-only actions (revise, submit): `actor` must be the report's author,
/// else [`DomainError::Forbidden`] naming the `action`.
pub fn require_author(report: &Report, actor: &UserId, action: &str) -> (r: Result<
    (),
    DomainError,
>)
    ensures
        r is Ok <==> report@.author == actor@,
        r matches Err(e) ==> e is Forbidden && e.message() == "only the author may "@ + action@
            + " this report"@,
{
    if *report.author() != *actor {
        let mut message = String::from_str("only the author may ");
        message.append(action);
        message.append(" this report");
        return Err(DomainError::Forbidden(message));
    }
    Ok(())
}

/// A trainee may only submit, and a signer only sign, with a signature on
/// file; otherwise [`DomainError::Precondition`].
pub fn require_signature(signature: Option<StoredSignature>) -> (r: Result<(), DomainError>)
    ensures
        r is Ok <==> signature is Some,
        r matches Err(e) ==> e is Precondition && e.message()
            == "register a signature before submitting or signing a report"@,
{
    match signature {
        Some(_) => Ok(()),
        None => Err(
            DomainError::Precondition(
                String::from_str("register a signature before submitting or signing a report"),
            ),
        ),
    }
}

/// Whether `role` is a signer in `department`.
pub open spec fn signs_in(role: Role, department: Seq<char>) -> bool {
    role is Signer && role.department_view() == department
}

/// Only a signer in the report's department may sign or reject it; anyone else
/// is [`DomainError::Forbidden`].
pub fn require_signer_for(role: &Role, report: &Report) -> (r: Result<(), DomainError>)
    ensures
        r is Ok <==> signs_in(*role, report@.department),
        r matches Err(e) ==> e is Forbidden && e.message()
            == "only a signer in this report's department may sign or reject it"@,
{
    match role {
        Role::Signer { department } => {
            if *department == *report.department() {
                return Ok(());
            }
        },
        _ => {},
    }
    Err(
        DomainError::Forbidden(
            String::from_str("only a signer in this report's department may sign or reject it"),
        ),
    )
}

/// Whether `actor` may read `report` on the strength of their role: any
/// instructor (global read access) or a signer in the report's department.
pub open spec fn role_may_view(role: Role, report_department: Seq<char>) -> bool {
    role is Instructor || signs_in(role, report_department)
}

/// A report is always visible to its author; for anyone else this decides
/// from their role, refusing with [`DomainError::Forbidden`].
pub fn authorize_view(role: &Role, report: &Report) -> (r: Result<(), DomainError>)
    ensures
        r is Ok <==> role_may_view(*role, report@.department),
        r matches Err(e) ==> e is Forbidden && e.message() == "you may not view this report"@,
{
    match role {
        Role::Instructor { .. } => Ok(()),
        Role::Signer { department } => {
            if *department == *report.department() {
                Ok(())
            } else {
                Err(DomainError::Forbidden(String::from_str("you may not view this report")))
            }
        },
        _ => Err(DomainError::Forbidden(String::from_str("you may not view this report"))),
    }
}

/// Whether `actor` wrote `report` (and so may read it without a role check).
pub fn is_author(report: &Report, actor: &UserId) -> (r: bool)
    ensures
        r == (report@.author == actor@),
{
    *report.author() == *actor
}

/// Which reports a user is involved in.
#[derive(Debug)]
pub enum ReportQueue {
    /// The reports `author` wrote.
    Authored(UserId),
    /// A department's queue.
    Department(DepartmentId),
    /// Every report in the instance.
    All,
}

/// The reports `actor` sees: a trainee the reports they authored, a signer
/// their department's queue, an instructor every report (global, read-only).
pub fn queue_for(role: Role, actor: &UserId) -> (r: ReportQueue)
    ensures
        match role {
            Role::Trainee { .. } => r matches ReportQueue::Authored(a) && a@ == actor@,
            Role::Signer { department } => r matches ReportQueue::Department(d) && d@
                == department@,
            Role::Instructor { .. } => r is All,
        },
{
    match role {
        Role::Trainee { .. } => ReportQueue::Authored(actor.clone()),
        Role::Signer { department } => ReportQueue::Department(department),
        Role::Instructor { .. } => ReportQueue::All,
    }
}

/// Who signed `report` and when, once it is signed.
pub fn signer_of(report: &Report) -> (r: Option<(UserId, Timestamp)>)
    ensures
        match report@.status {
            StatusView::Signed { at, by } => r matches Some((u, t)) && u@ == by && t == at,
            _ => r is None,
        },
{
    match report.status() {
        ReviewStatus::Signed { at, by } => Some((by.clone(), *at)),
        _ => None,
    }
}

/// Everything the outer layers need to render a report (e.g. as a PDF): the
/// report, the author's display name and signature, and — once signed — the
/// signer's.
#[derive(Debug)]
pub struct ReportForExport {
    /// The report being exported.
    pub report: Report,
    /// The author's directory display name.
    pub author_name: String,
    /// The author's registered signature, or `None` if they have none on file.
    pub author_signature: Option<StoredSignature>,
    /// The signer's details, present only once the report is signed.
    pub signer: Option<SignerForExport>,
}

/// The signer side of a [`ReportForExport`].
#[derive(Debug)]
pub struct SignerForExport {
    /// The signer's directory display name.
    pub name: String,
    /// The signer's registered signature, or `None` if they have none on file.
    pub signature: Option<StoredSignature>,
    /// When the report was signed.
    pub signed_at: Timestamp,
}

/// Whether a user of `marker` in `department` holding `role` is the same as
/// `role_matches`, spelled for readers of the authorization laws.
pub open spec fn holds_role(role: Role, marker: DirectoryMarker, department: Seq<char>) -> bool {
    role_matches(Some(role), marker, Some(department))
}

/// Who may decide on a report: a regular directory user assigned to the
/// report's department, and nobody else — not its trainee author, not an
/// instructor, not a signer of another department.
pub proof fn lemma_only_department_signers_decide(
    role: Role,
    marker: DirectoryMarker,
    department: Seq<char>,
    report_department: Seq<char>,
)
    requires
        holds_role(role, marker, department),
    ensures
        signs_in(role, report_department) <==> (marker == DirectoryMarker::Regular && department
            == report_department),
{
}

/// Who may read a report besides its author: every instructor, and the signers
/// of its department — exactly those who may decide on it, plus instructors.
pub proof fn lemma_readers_of_a_report(
    role: Role,
    marker: DirectoryMarker,
    department: Seq<char>,
    report_department: Seq<char>,
)
    requires
        holds_role(role, marker, department),
    ensures
        role_may_view(role, report_department) <==> (marker == DirectoryMarker::Instructor || (
        marker == DirectoryMarker::Regular && department == report_department)),
        signs_in(role, report_department) ==> role_may_view(role, report_department),
{
}

} // verus!
