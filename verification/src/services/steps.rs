//! The report use-cases as step functions.
//!
//! Each use-case alternates storage round-trips with decisions. Here each one
//! is a state machine: given where it stands and what the last round-trip
//! answered, [`DraftFlow::step`] (and its siblings) say where it stands next
//! and which round-trip to make — or that it is finished, with its result. The
//! application performs the round-trips and feeds the answers back, so the
//! order of the checks, and what is written, is decided here.

use vstd::prelude::*;

use crate::errors::DomainError;
use crate::models::ids::{DepartmentId, ReportId, UserId};
use crate::models::report::{
    rejected, reject_refusal, revise_refusal, revised, sign_refusal, signed, submit_refusal, submitted, Report,
    ReportState, ReviewDecision, StatusView,
};
use crate::models::signature::StoredSignature;
use crate::models::time::Timestamp;
use crate::models::users::{DirectoryMarker, User};
use crate::models::week::{iso_week_text, IsoWeek};
use crate::services::report::{
    authoring_department, authorize_view, covers_week, found_user, is_author, signer_of,
    ReportForExport, SignerForExport, ensure_week_free, found_report, missing_report_message,
    missing_user_message, require_author, require_signature, require_signer_for, role_of,
};

verus! {

// ---- creating a draft ----

/// Where creating a draft stands.
#[derive(Debug)]
pub enum DraftFlow {
    /// Waiting for the lookup of the author.
    AwaitAuthor { author: UserId, week: IsoWeek, content: String },
    /// Waiting for the reports the author already wrote.
    AwaitAuthored { author: UserId, week: IsoWeek, content: String, department: DepartmentId },
    /// Waiting for a fresh report id.
    AwaitId { author: UserId, week: IsoWeek, content: String, department: DepartmentId },
    /// Waiting for the new report to be stored under `id`.
    AwaitStored { id: ReportId },
    /// Done; the result was handed out.
    Finished,
}

/// What a storage round-trip of a draft answered.
#[derive(Debug)]
pub enum DraftEvent {
    /// The lookup of the author found this.
    Author(Option<User>),
    /// These are the reports the author already wrote.
    Authored(Vec<Report>),
    /// This is a fresh report id.
    Id(ReportId),
    /// The report was stored.
    Stored,
}

/// What creating a draft does next.
#[derive(Debug)]
pub enum DraftAction {
    /// Look up this user.
    LookupUser(UserId),
    /// List the reports this user wrote.
    ListAuthored(UserId),
    /// Ask the id generator for a report id.
    IssueId,
    /// Store this report.
    Store(Report),
    /// Stop with this result: the new report's id, or why it was refused.
    Finish(Result<ReportId, DomainError>),
}

impl DraftFlow {
    /// Whether `event` answers the round-trip this flow waits for.
    pub open spec fn expects(&self, event: &DraftEvent) -> bool {
        match self {
            DraftFlow::AwaitAuthor { .. } => event is Author,
            DraftFlow::AwaitAuthored { .. } => event is Authored,
            DraftFlow::AwaitId { .. } => event is Id,
            DraftFlow::AwaitStored { .. } => event is Stored,
            DraftFlow::Finished => false,
        }
    }

    /// Begin drafting a report of `content` for `week` by `author`: first look
    /// the author up.
    pub fn start(author: UserId, week: IsoWeek, content: String) -> (r: (DraftFlow, DraftAction))
        ensures
            r.0 matches DraftFlow::AwaitAuthor { author: a, week: w, content: c } && a@ == author@
                && w == week && c@ == content@,
            r.1 matches DraftAction::LookupUser(u) && u@ == author@,
    {
        let lookup = author.clone();
        (DraftFlow::AwaitAuthor { author, week, content }, DraftAction::LookupUser(lookup))
    }

    /// The next state and action once `event` answered the last round-trip.
    ///
    /// Only a trainee with a department may author, into that department; a
    /// week the author already covers is a conflict; only then is an id
    /// drawn and the fresh draft stored.
    pub fn step(self, event: DraftEvent) -> (r: (DraftFlow, DraftAction))
        requires
            self.expects(&event),
        ensures
            match (self, event) {
                (
                    DraftFlow::AwaitAuthor { author, week, content },
                    DraftEvent::Author(user),
                ) => match user {
                    None => {
                        &&& r.0 is Finished
                        &&& r.1 matches DraftAction::Finish(Err(e)) && e is NotFound
                            && e.message() == missing_user_message(author@)
                    },
                    Some(u) => match u@.department {
                        None => {
                            &&& r.0 is Finished
                            &&& r.1 matches DraftAction::Finish(Err(e)) && e is Forbidden
                                && e.message() == "you have no department assigned"@
                        },
                        Some(d) => if u@.marker == DirectoryMarker::Trainee {
                            &&& r.0 matches DraftFlow::AwaitAuthored {
                                author: a,
                                week: w,
                                content: c,
                                department: dep,
                            } && a@ == author@ && w == week && c@ == content@ && dep@ == d
                            &&& r.1 matches DraftAction::ListAuthored(x) && x@ == author@
                        } else {
                            &&& r.0 is Finished
                            &&& r.1 matches DraftAction::Finish(Err(e)) && e is Forbidden
                                && e.message() == "only a trainee may author a report"@
                        },
                    },
                },
                (
                    DraftFlow::AwaitAuthored { author, week, content, department },
                    DraftEvent::Authored(reports),
                ) => if covers_week(reports@, week) {
                    &&& r.0 is Finished
                    &&& r.1 matches DraftAction::Finish(Err(e)) && e is Conflict && e.message()
                        == "a report already exists for "@ + iso_week_text(
                        week.year_spec(),
                        week.week_spec(),
                    )
                } else {
                    &&& r.0 matches DraftFlow::AwaitId { author: a, week: w, content: c, department: dep }
                        && a@ == author@ && w == week && c@ == content@ && dep@ == department@
                    &&& r.1 is IssueId
                },
                (
                    DraftFlow::AwaitId { author, week, content, department },
                    DraftEvent::Id(id),
                ) => {
                    &&& r.0 matches DraftFlow::AwaitStored { id: i } && i@ == id@
                    &&& r.1 matches DraftAction::Store(rep) && rep@ == (ReportState {
                        id: id@,
                        author: author@,
                        department: department@,
                        week,
                        content: content@,
                        status: StatusView::Draft,
                    })
                },
                (DraftFlow::AwaitStored { id }, DraftEvent::Stored) => {
                    &&& r.0 is Finished
                    &&& r.1 matches DraftAction::Finish(Ok(i)) && i@ == id@
                },
                _ => false,
            },
    {
        match self {
            DraftFlow::AwaitAuthor { author, week, content } => {
                let user = match event {
                    DraftEvent::Author(user) => user,
                    _ => { return (DraftFlow::Finished, DraftAction::IssueId); },
                };
                let role = match role_of(user, &author) {
                    Ok(role) => role,
                    Err(e) => { return (DraftFlow::Finished, DraftAction::Finish(Err(e))); },
                };
                match authoring_department(role) {
                    Ok(department) => {
                        let list = author.clone();
                        (
                            DraftFlow::AwaitAuthored { author, week, content, department },
                            DraftAction::ListAuthored(list),
                        )
                    },
                    Err(e) => (DraftFlow::Finished, DraftAction::Finish(Err(e))),
                }
            },
            DraftFlow::AwaitAuthored { author, week, content, department } => {
                let reports = match event {
                    DraftEvent::Authored(reports) => reports,
                    _ => { return (DraftFlow::Finished, DraftAction::IssueId); },
                };
                match ensure_week_free(&reports, week) {
                    Ok(()) => (
                        DraftFlow::AwaitId { author, week, content, department },
                        DraftAction::IssueId,
                    ),
                    Err(e) => (DraftFlow::Finished, DraftAction::Finish(Err(e))),
                }
            },
            DraftFlow::AwaitId { author, week, content, department } => {
                let id = match event {
                    DraftEvent::Id(id) => id,
                    _ => { return (DraftFlow::Finished, DraftAction::IssueId); },
                };
                let kept = id.clone();
                let report = Report::new(id, author, department, week, content);
                (DraftFlow::AwaitStored { id: kept }, DraftAction::Store(report))
            },
            DraftFlow::AwaitStored { id } => (DraftFlow::Finished, DraftAction::Finish(Ok(id))),
            DraftFlow::Finished => (DraftFlow::Finished, DraftAction::IssueId),
        }
    }
}

// ---- submitting ----

/// Where submitting a report stands.
#[derive(Debug)]
pub enum SubmitFlow {
    /// Waiting for the lookup of report `id`, which `actor` submits.
    AwaitReport { actor: UserId, id: ReportId },
    /// Waiting for the lookup of the author's signature.
    AwaitSignature { actor: UserId, report: Report },
    /// Waiting for the clock.
    AwaitClock { report: Report },
    /// Waiting for the submitted report to be stored.
    AwaitStored,
    /// Done; the result was handed out.
    Finished,
}

/// What a round-trip of a submission or a review answered.
#[derive(Debug)]
pub enum ReportEvent {
    /// The lookup of the report found this.
    Report(Option<Report>),
    /// The lookup of the acting user found this.
    Actor(Option<User>),
    /// The lookup of the acting user's signature found this.
    Signature(Option<StoredSignature>),
    /// The clock reads this.
    Clock(Timestamp),
    /// The report was stored.
    Stored,
}

/// What a submission or a review does next.
#[derive(Debug)]
pub enum ReportAction {
    /// Look up this report.
    LookupReport(ReportId),
    /// Look up this user.
    LookupUser(UserId),
    /// Look up this user's signature.
    LookupSignature(UserId),
    /// Read the clock.
    ReadClock,
    /// Store this report.
    Store(Report),
    /// Stop with this result.
    Finish(Result<(), DomainError>),
}

impl SubmitFlow {
    /// Whether `event` answers the round-trip this flow waits for.
    pub open spec fn expects(&self, event: &ReportEvent) -> bool {
        match self {
            SubmitFlow::AwaitReport { .. } => event is Report,
            SubmitFlow::AwaitSignature { .. } => event is Signature,
            SubmitFlow::AwaitClock { .. } => event is Clock,
            SubmitFlow::AwaitStored => event is Stored,
            SubmitFlow::Finished => false,
        }
    }

    /// Begin submitting report `id` as `actor`: first look the report up.
    pub fn start(actor: UserId, id: ReportId) -> (r: (SubmitFlow, ReportAction))
        ensures
            r.0 matches SubmitFlow::AwaitReport { actor: a, id: i } && a@ == actor@ && i@ == id@,
            r.1 matches ReportAction::LookupReport(i) && i@ == id@,
    {
        let lookup = id.clone();
        (SubmitFlow::AwaitReport { actor, id }, ReportAction::LookupReport(lookup))
    }

    /// The next state and action once `event` answered the last round-trip.
    ///
    /// Only the author may submit, and that is settled before the signature
    /// is asked for: a caller who is not the author is refused without a
    /// signature lookup. The author must have a signature on file; then the
    /// report's own rules decide at the time the clock reads.
    pub fn step(self, event: ReportEvent) -> (r: (SubmitFlow, ReportAction))
        requires
            self.expects(&event),
        ensures
            match (self, event) {
                (SubmitFlow::AwaitReport { actor, id }, ReportEvent::Report(found)) => match found {
                    None => {
                        &&& r.0 is Finished
                        &&& r.1 matches ReportAction::Finish(Err(e)) && e is NotFound
                            && e.message() == missing_report_message(id@)
                    },
                    Some(rep) => if rep@.author == actor@ {
                        &&& r.0 matches SubmitFlow::AwaitSignature { actor: a, report: kept }
                            && a@ == actor@ && kept@ == rep@
                        &&& r.1 matches ReportAction::LookupSignature(u) && u@ == actor@
                    } else {
                        &&& r.0 is Finished
                        &&& r.1 matches ReportAction::Finish(Err(e)) && e is Forbidden
                            && e.message() == "only the author may "@ + "submit"@
                            + " this report"@
                    },
                },
                (SubmitFlow::AwaitSignature { actor, report }, ReportEvent::Signature(sig)) => match sig {
                    None => {
                        &&& r.0 is Finished
                        &&& r.1 matches ReportAction::Finish(Err(e)) && e is Precondition
                            && e.message()
                            == "register a signature before submitting or signing a report"@
                    },
                    Some(_) => {
                        &&& r.0 matches SubmitFlow::AwaitClock { report: kept } && kept@ == report@
                        &&& r.1 is ReadClock
                    },
                },
                (SubmitFlow::AwaitClock { report }, ReportEvent::Clock(at)) => match submitted(report@, at) {
                    None => {
                        &&& r.0 is Finished
                        &&& r.1 matches ReportAction::Finish(Err(e)) && e is Invalid
                            && e.message() == submit_refusal(report@)
                    },
                    Some(next) => {
                        &&& r.0 is AwaitStored
                        &&& r.1 matches ReportAction::Store(rep) && rep@ == next
                    },
                },
                (SubmitFlow::AwaitStored, ReportEvent::Stored) => {
                    &&& r.0 is Finished
                    &&& r.1 matches ReportAction::Finish(Ok(()))
                },
                _ => false,
            },
    {
        match self {
            SubmitFlow::AwaitReport { actor, id } => {
                let found = match event {
                    ReportEvent::Report(found) => found,
                    _ => { return (SubmitFlow::Finished, ReportAction::ReadClock); },
                };
                let report = match found_report(found, &id) {
                    Ok(report) => report,
                    Err(e) => { return (SubmitFlow::Finished, ReportAction::Finish(Err(e))); },
                };
                match require_author(&report, &actor, "submit") {
                    Ok(()) => {
                        let lookup = actor.clone();
                        (
                            SubmitFlow::AwaitSignature { actor, report },
                            ReportAction::LookupSignature(lookup),
                        )
                    },
                    Err(e) => (SubmitFlow::Finished, ReportAction::Finish(Err(e))),
                }
            },
            SubmitFlow::AwaitSignature { actor, report } => {
                let sig = match event {
                    ReportEvent::Signature(sig) => sig,
                    _ => { return (SubmitFlow::Finished, ReportAction::ReadClock); },
                };
                match require_signature(sig) {
                    Ok(()) => (SubmitFlow::AwaitClock { report }, ReportAction::ReadClock),
                    Err(e) => (SubmitFlow::Finished, ReportAction::Finish(Err(e))),
                }
            },
            SubmitFlow::AwaitClock { report } => {
                let at = match event {
                    ReportEvent::Clock(at) => at,
                    _ => { return (SubmitFlow::Finished, ReportAction::ReadClock); },
                };
                let mut report = report;
                match report.submit(at) {
                    Ok(()) => (SubmitFlow::AwaitStored, ReportAction::Store(report)),
                    Err(e) => (SubmitFlow::Finished, ReportAction::Finish(Err(e))),
                }
            },
            SubmitFlow::AwaitStored => (SubmitFlow::Finished, ReportAction::Finish(Ok(()))),
            SubmitFlow::Finished => (SubmitFlow::Finished, ReportAction::ReadClock),
        }
    }
}

// ---- revising ----

/// Where revising a report stands.
#[derive(Debug)]
pub enum ReviseFlow {
    /// Waiting for the lookup of report `id`, which `actor` revises to `content`.
    AwaitReport { actor: UserId, id: ReportId, content: String },
    /// Waiting for the revised report to be stored.
    AwaitStored,
    /// Done; the result was handed out.
    Finished,
}

impl ReviseFlow {
    /// Whether `event` answers the round-trip this flow waits for.
    pub open spec fn expects(&self, event: &ReportEvent) -> bool {
        match self {
            ReviseFlow::AwaitReport { .. } => event is Report,
            ReviseFlow::AwaitStored => event is Stored,
            ReviseFlow::Finished => false,
        }
    }

    /// Begin revising report `id` to `content` as `actor`: first look the
    /// report up.
    pub fn start(actor: UserId, id: ReportId, content: String) -> (r: (ReviseFlow, ReportAction))
        ensures
            r.0 matches ReviseFlow::AwaitReport { actor: a, id: i, content: c } && a@ == actor@
                && i@ == id@ && c@ == content@,
            r.1 matches ReportAction::LookupReport(i) && i@ == id@,
    {
        let lookup = id.clone();
        (ReviseFlow::AwaitReport { actor, id, content }, ReportAction::LookupReport(lookup))
    }

    /// The next state and action once `event` answered the last round-trip.
    ///
    /// Only the author may revise; then the report's own rules decide.
    pub fn step(self, event: ReportEvent) -> (r: (ReviseFlow, ReportAction))
        requires
            self.expects(&event),
        ensures
            match (self, event) {
                (ReviseFlow::AwaitReport { actor, id, content }, ReportEvent::Report(found)) => match found {
                    None => {
                        &&& r.0 is Finished
                        &&& r.1 matches ReportAction::Finish(Err(e)) && e is NotFound
                            && e.message() == missing_report_message(id@)
                    },
                    Some(rep) => if rep@.author != actor@ {
                        &&& r.0 is Finished
                        &&& r.1 matches ReportAction::Finish(Err(e)) && e is Forbidden
                            && e.message() == "only the author may "@ + "revise"@
                            + " this report"@
                    } else {
                        match revised(rep@, content@) {
                            None => {
                                &&& r.0 is Finished
                                &&& r.1 matches ReportAction::Finish(Err(e)) && e is Invalid
                                    && e.message() == revise_refusal()
                            },
                            Some(next) => {
                                &&& r.0 is AwaitStored
                                &&& r.1 matches ReportAction::Store(stored) && stored@ == next
                            },
                        }
                    },
                },
                (ReviseFlow::AwaitStored, ReportEvent::Stored) => {
                    &&& r.0 is Finished
                    &&& r.1 matches ReportAction::Finish(Ok(()))
                },
                _ => false,
            },
    {
        match self {
            ReviseFlow::AwaitReport { actor, id, content } => {
                let found = match event {
                    ReportEvent::Report(found) => found,
                    _ => { return (ReviseFlow::Finished, ReportAction::ReadClock); },
                };
                let mut report = match found_report(found, &id) {
                    Ok(report) => report,
                    Err(e) => { return (ReviseFlow::Finished, ReportAction::Finish(Err(e))); },
                };
                match require_author(&report, &actor, "revise") {
                    Ok(()) => {},
                    Err(e) => { return (ReviseFlow::Finished, ReportAction::Finish(Err(e))); },
                }
                match report.revise(content) {
                    Ok(()) => (ReviseFlow::AwaitStored, ReportAction::Store(report)),
                    Err(e) => (ReviseFlow::Finished, ReportAction::Finish(Err(e))),
                }
            },
            ReviseFlow::AwaitStored => (ReviseFlow::Finished, ReportAction::Finish(Ok(()))),
            ReviseFlow::Finished => (ReviseFlow::Finished, ReportAction::ReadClock),
        }
    }
}

// ---- reading ----

/// Where reading a report stands.
#[derive(Debug)]
pub enum ViewFlow {
    /// Waiting for the lookup of report `id`, which `actor` reads.
    AwaitReport { actor: UserId, id: ReportId },
    /// Waiting for the lookup of the reader, who is not the author.
    AwaitActor { actor: UserId, report: Report },
    /// Done; the result was handed out.
    Finished,
}

/// What reading a report does next.
#[derive(Debug)]
pub enum ViewAction {
    /// Look up this report.
    LookupReport(ReportId),
    /// Look up this user.
    LookupUser(UserId),
    /// Stop with this result: the report, or why it may not be read.
    Finish(Result<Report, DomainError>),
}

impl ViewFlow {
    /// Whether `event` answers the round-trip this flow waits for.
    pub open spec fn expects(&self, event: &ReportEvent) -> bool {
        match self {
            ViewFlow::AwaitReport { .. } => event is Report,
            ViewFlow::AwaitActor { .. } => event is Actor,
            ViewFlow::Finished => false,
        }
    }

    /// Begin reading report `id` as `actor`: first look the report up.
    pub fn start(actor: UserId, id: ReportId) -> (r: (ViewFlow, ViewAction))
        ensures
            r.0 matches ViewFlow::AwaitReport { actor: a, id: i } && a@ == actor@ && i@ == id@,
            r.1 matches ViewAction::LookupReport(i) && i@ == id@,
    {
        let lookup = id.clone();
        (ViewFlow::AwaitReport { actor, id }, ViewAction::LookupReport(lookup))
    }

    /// The next state and action once `event` answered the last round-trip.
    ///
    /// The author always reads their report, without a role lookup; anyone
    /// else reads it as an instructor or as a signer of its department.
    pub fn step(self, event: ReportEvent) -> (r: (ViewFlow, ViewAction))
        requires
            self.expects(&event),
        ensures
            match (self, event) {
                (ViewFlow::AwaitReport { actor, id }, ReportEvent::Report(found)) => match found {
                    None => {
                        &&& r.0 is Finished
                        &&& r.1 matches ViewAction::Finish(Err(e)) && e is NotFound
                            && e.message() == missing_report_message(id@)
                    },
                    Some(rep) => if rep@.author == actor@ {
                        &&& r.0 is Finished
                        &&& r.1 matches ViewAction::Finish(Ok(v)) && v@ == rep@
                    } else {
                        &&& r.0 matches ViewFlow::AwaitActor { actor: a, report: kept } && a@
                            == actor@ && kept@ == rep@
                        &&& r.1 matches ViewAction::LookupUser(u) && u@ == actor@
                    },
                },
                (ViewFlow::AwaitActor { actor, report }, ReportEvent::Actor(user)) => match user {
                    None => {
                        &&& r.0 is Finished
                        &&& r.1 matches ViewAction::Finish(Err(e)) && e is NotFound
                            && e.message() == missing_user_message(actor@)
                    },
                    Some(u) => match u@.department {
                        None => {
                            &&& r.0 is Finished
                            &&& r.1 matches ViewAction::Finish(Err(e)) && e is Forbidden
                                && e.message() == "you have no department assigned"@
                        },
                        Some(d) => if u@.marker == DirectoryMarker::Instructor || (u@.marker
                            == DirectoryMarker::Regular && d == report@.department) {
                            &&& r.0 is Finished
                            &&& r.1 matches ViewAction::Finish(Ok(v)) && v@ == report@
                        } else {
                            &&& r.0 is Finished
                            &&& r.1 matches ViewAction::Finish(Err(e)) && e is Forbidden
                                && e.message() == "you may not view this report"@
                        },
                    },
                },
                _ => false,
            },
    {
        match self {
            ViewFlow::AwaitReport { actor, id } => {
                let found = match event {
                    ReportEvent::Report(found) => found,
                    _ => { return (ViewFlow::Finished, ViewAction::LookupReport(id)); },
                };
                let report = match found_report(found, &id) {
                    Ok(report) => report,
                    Err(e) => { return (ViewFlow::Finished, ViewAction::Finish(Err(e))); },
                };
                if is_author(&report, &actor) {
                    (ViewFlow::Finished, ViewAction::Finish(Ok(report)))
                } else {
                    let lookup = actor.clone();
                    (ViewFlow::AwaitActor { actor, report }, ViewAction::LookupUser(lookup))
                }
            },
            ViewFlow::AwaitActor { actor, report } => {
                let user = match event {
                    ReportEvent::Actor(user) => user,
                    _ => { return (ViewFlow::Finished, ViewAction::LookupUser(actor)); },
                };
                let role = match role_of(user, &actor) {
                    Ok(role) => role,
                    Err(e) => { return (ViewFlow::Finished, ViewAction::Finish(Err(e))); },
                };
                match authorize_view(&role, &report) {
                    Ok(()) => (ViewFlow::Finished, ViewAction::Finish(Ok(report))),
                    Err(e) => (ViewFlow::Finished, ViewAction::Finish(Err(e))),
                }
            },
            ViewFlow::Finished => (ViewFlow::Finished, ViewAction::Finish(Err(DomainError::Internal(String::new())))),
        }
    }
}

// ---- gathering what an export renders ----

/// Where gathering a report's export inputs stands.
#[derive(Debug)]
pub enum ExportFlow {
    /// Waiting for the lookup of report `id`, which `actor` exports.
    AwaitReport { actor: UserId, id: ReportId },
    /// Waiting for the lookup of the reader, who is not the author.
    AwaitReader { actor: UserId, report: Report },
    /// Waiting for the lookup of the report's author.
    AwaitAuthor { report: Report },
    /// Waiting for the lookup of the author's signature.
    AwaitAuthorSignature { report: Report, author_name: String },
    /// Waiting for the lookup of the user who signed the report.
    AwaitSigner {
        report: Report,
        author_name: String,
        author_signature: Option<StoredSignature>,
        by: UserId,
        signed_at: Timestamp,
    },
    /// Waiting for the lookup of the signer's signature.
    AwaitSignerSignature {
        report: Report,
        author_name: String,
        author_signature: Option<StoredSignature>,
        signer_name: String,
        signed_at: Timestamp,
    },
    /// Done; the result was handed out.
    Finished,
}

/// What gathering export inputs does next.
#[derive(Debug)]
pub enum ExportAction {
    /// Look up this report.
    LookupReport(ReportId),
    /// Look up this user.
    LookupUser(UserId),
    /// Look up this user's signature.
    LookupSignature(UserId),
    /// Stop with this result.
    Finish(Result<ReportForExport, DomainError>),
}

impl ExportFlow {
    /// Whether `event` answers the round-trip this flow waits for.
    pub open spec fn expects(&self, event: &ReportEvent) -> bool {
        match self {
            ExportFlow::AwaitReport { .. } => event is Report,
            ExportFlow::AwaitReader { .. } => event is Actor,
            ExportFlow::AwaitAuthor { .. } => event is Actor,
            ExportFlow::AwaitAuthorSignature { .. } => event is Signature,
            ExportFlow::AwaitSigner { .. } => event is Actor,
            ExportFlow::AwaitSignerSignature { .. } => event is Signature,
            ExportFlow::Finished => false,
        }
    }

    /// Begin gathering what report `id` is exported with, as `actor`: first
    /// look the report up.
    pub fn start(actor: UserId, id: ReportId) -> (r: (ExportFlow, ExportAction))
        ensures
            r.0 matches ExportFlow::AwaitReport { actor: a, id: i } && a@ == actor@ && i@ == id@,
            r.1 matches ExportAction::LookupReport(i) && i@ == id@,
    {
        let lookup = id.clone();
        (ExportFlow::AwaitReport { actor, id }, ExportAction::LookupReport(lookup))
    }

    /// The next state and action once `event` answered the last round-trip.
    ///
    /// The report must be readable by `actor`, as for [`ViewFlow`]. Then the
    /// author is looked up for their name and their signature; once the
    /// report is signed, so is the user who signed it. The result holds the
    /// report, the author's name and signature, and — only for a signed
    /// report — the signer's name, signature and signing time.
    pub fn step(self, event: ReportEvent) -> (r: (ExportFlow, ExportAction))
        requires
            self.expects(&event),
        ensures
            match (self, event) {
                (ExportFlow::AwaitReport { actor, id }, ReportEvent::Report(found)) => match found {
                    None => {
                        &&& r.0 is Finished
                        &&& r.1 matches ExportAction::Finish(Err(e)) && e is NotFound
                            && e.message() == missing_report_message(id@)
                    },
                    Some(rep) => if rep@.author == actor@ {
                        &&& r.0 matches ExportFlow::AwaitAuthor { report: kept } && kept@ == rep@
                        &&& r.1 matches ExportAction::LookupUser(u) && u@ == rep@.author
                    } else {
                        &&& r.0 matches ExportFlow::AwaitReader { actor: a, report: kept } && a@
                            == actor@ && kept@ == rep@
                        &&& r.1 matches ExportAction::LookupUser(u) && u@ == actor@
                    },
                },
                (ExportFlow::AwaitReader { actor, report }, ReportEvent::Actor(user)) => match user {
                    None => {
                        &&& r.0 is Finished
                        &&& r.1 matches ExportAction::Finish(Err(e)) && e is NotFound
                            && e.message() == missing_user_message(actor@)
                    },
                    Some(u) => match u@.department {
                        None => {
                            &&& r.0 is Finished
                            &&& r.1 matches ExportAction::Finish(Err(e)) && e is Forbidden
                                && e.message() == "you have no department assigned"@
                        },
                        Some(d) => if u@.marker == DirectoryMarker::Instructor || (u@.marker
                            == DirectoryMarker::Regular && d == report@.department) {
                            &&& r.0 matches ExportFlow::AwaitAuthor { report: kept } && kept@
                                == report@
                            &&& r.1 matches ExportAction::LookupUser(a) && a@ == report@.author
                        } else {
                            &&& r.0 is Finished
                            &&& r.1 matches ExportAction::Finish(Err(e)) && e is Forbidden
                                && e.message() == "you may not view this report"@
                        },
                    },
                },
                (ExportFlow::AwaitAuthor { report }, ReportEvent::Actor(user)) => match user {
                    None => {
                        &&& r.0 is Finished
                        &&& r.1 matches ExportAction::Finish(Err(e)) && e is NotFound
                            && e.message() == missing_user_message(report@.author)
                    },
                    Some(u) => {
                        &&& r.0 matches ExportFlow::AwaitAuthorSignature { report: kept, author_name }
                            && kept@ == report@ && author_name@ == u@.username
                        &&& r.1 matches ExportAction::LookupSignature(a) && a@ == report@.author
                    },
                },
                (
                    ExportFlow::AwaitAuthorSignature { report, author_name },
                    ReportEvent::Signature(sig),
                ) => match report@.status {
                    StatusView::Signed { at, by } => {
                        &&& r.0 matches ExportFlow::AwaitSigner {
                            report: kept,
                            author_name: n,
                            author_signature: s,
                            by: b,
                            signed_at: t,
                        } && kept@ == report@ && n@ == author_name@ && s == sig && b@ == by && t
                            == at
                        &&& r.1 matches ExportAction::LookupUser(u) && u@ == by
                    },
                    _ => {
                        &&& r.0 is Finished
                        &&& r.1 matches ExportAction::Finish(Ok(ex)) && ex.report@ == report@
                            && ex.author_name@ == author_name@ && ex.author_signature == sig
                            && ex.signer is None
                    },
                },
                (
                    ExportFlow::AwaitSigner { report, author_name, author_signature, by, signed_at },
                    ReportEvent::Actor(user),
                ) => match user {
                    None => {
                        &&& r.0 is Finished
                        &&& r.1 matches ExportAction::Finish(Err(e)) && e is NotFound
                            && e.message() == missing_user_message(by@)
                    },
                    Some(u) => {
                        &&& r.0 matches ExportFlow::AwaitSignerSignature {
                            report: kept,
                            author_name: n,
                            author_signature: s,
                            signer_name,
                            signed_at: t,
                        } && kept@ == report@ && n@ == author_name@ && s == author_signature
                            && signer_name@ == u@.username && t == signed_at
                        &&& r.1 matches ExportAction::LookupSignature(b) && b@ == by@
                    },
                },
                (
                    ExportFlow::AwaitSignerSignature {
                        report,
                        author_name,
                        author_signature,
                        signer_name,
                        signed_at,
                    },
                    ReportEvent::Signature(sig),
                ) => {
                    &&& r.0 is Finished
                    &&& r.1 matches ExportAction::Finish(Ok(ex)) && ex.report@ == report@
                        && ex.author_name@ == author_name@ && ex.author_signature
                        == author_signature && (ex.signer matches Some(sg) && sg.name@
                        == signer_name@ && sg.signature == sig && sg.signed_at == signed_at)
                },
                _ => false,
            },
    {
        match self {
            ExportFlow::AwaitReport { actor, id } => {
                let found = match event {
                    ReportEvent::Report(found) => found,
                    _ => { return (ExportFlow::Finished, ExportAction::LookupReport(id)); },
                };
                let report = match found_report(found, &id) {
                    Ok(report) => report,
                    Err(e) => { return (ExportFlow::Finished, ExportAction::Finish(Err(e))); },
                };
                if is_author(&report, &actor) {
                    let author = report.author().clone();
                    (ExportFlow::AwaitAuthor { report }, ExportAction::LookupUser(author))
                } else {
                    let lookup = actor.clone();
                    (ExportFlow::AwaitReader { actor, report }, ExportAction::LookupUser(lookup))
                }
            },
            ExportFlow::AwaitReader { actor, report } => {
                let user = match event {
                    ReportEvent::Actor(user) => user,
                    _ => { return (ExportFlow::Finished, ExportAction::LookupUser(actor)); },
                };
                let role = match role_of(user, &actor) {
                    Ok(role) => role,
                    Err(e) => { return (ExportFlow::Finished, ExportAction::Finish(Err(e))); },
                };
                match authorize_view(&role, &report) {
                    Ok(()) => {
                        let author = report.author().clone();
                        (ExportFlow::AwaitAuthor { report }, ExportAction::LookupUser(author))
                    },
                    Err(e) => (ExportFlow::Finished, ExportAction::Finish(Err(e))),
                }
            },
            ExportFlow::AwaitAuthor { report } => {
                let user = match event {
                    ReportEvent::Actor(user) => user,
                    _ => { return (ExportFlow::Finished, ExportAction::LookupUser(report.author().clone())); },
                };
                match found_user(user, report.author()) {
                    Ok(u) => {
                        let author_name = String::from_str(u.username());
                        let author = report.author().clone();
                        (
                            ExportFlow::AwaitAuthorSignature { report, author_name },
                            ExportAction::LookupSignature(author),
                        )
                    },
                    Err(e) => (ExportFlow::Finished, ExportAction::Finish(Err(e))),
                }
            },
            ExportFlow::AwaitAuthorSignature { report, author_name } => {
                let sig = match event {
                    ReportEvent::Signature(sig) => sig,
                    _ => { return (ExportFlow::Finished, ExportAction::LookupUser(report.author().clone())); },
                };
                match signer_of(&report) {
                    Some((by, signed_at)) => {
                        let lookup = by.clone();
                        (
                            ExportFlow::AwaitSigner {
                                report,
                                author_name,
                                author_signature: sig,
                                by,
                                signed_at,
                            },
                            ExportAction::LookupUser(lookup),
                        )
                    },
                    None => (
                        ExportFlow::Finished,
                        ExportAction::Finish(
                            Ok(
                                ReportForExport {
                                    report,
                                    author_name,
                                    author_signature: sig,
                                    signer: None,
                                },
                            ),
                        ),
                    ),
                }
            },
            ExportFlow::AwaitSigner { report, author_name, author_signature, by, signed_at } => {
                let user = match event {
                    ReportEvent::Actor(user) => user,
                    _ => { return (ExportFlow::Finished, ExportAction::LookupUser(by)); },
                };
                match found_user(user, &by) {
                    Ok(u) => {
                        let signer_name = String::from_str(u.username());
                        (
                            ExportFlow::AwaitSignerSignature {
                                report,
                                author_name,
                                author_signature,
                                signer_name,
                                signed_at,
                            },
                            ExportAction::LookupSignature(by),
                        )
                    },
                    Err(e) => (ExportFlow::Finished, ExportAction::Finish(Err(e))),
                }
            },
            ExportFlow::AwaitSignerSignature {
                report,
                author_name,
                author_signature,
                signer_name,
                signed_at,
            } => {
                let sig = match event {
                    ReportEvent::Signature(sig) => sig,
                    _ => { return (ExportFlow::Finished, ExportAction::LookupUser(report.author().clone())); },
                };
                let signer = SignerForExport { name: signer_name, signature: sig, signed_at };
                (
                    ExportFlow::Finished,
                    ExportAction::Finish(
                        Ok(
                            ReportForExport {
                                report,
                                author_name,
                                author_signature,
                                signer: Some(signer),
                            },
                        ),
                    ),
                )
            },
            ExportFlow::Finished => (
                ExportFlow::Finished,
                ExportAction::Finish(Err(DomainError::Internal(String::new()))),
            ),
        }
    }
}

// ---- signing or rejecting ----

/// Where a signer's review of a report stands.
#[derive(Debug)]
pub enum ReviewFlow {
    /// Waiting for the lookup of report `id`, on which `actor` decides.
    AwaitReport { actor: UserId, id: ReportId, decision: ReviewDecision },
    /// Waiting for the lookup of the acting user.
    AwaitActor { actor: UserId, decision: ReviewDecision, report: Report },
    /// Waiting for the lookup of the signer's signature (signing only).
    AwaitSignature { actor: UserId, report: Report },
    /// Waiting for the clock.
    AwaitClock { actor: UserId, decision: ReviewDecision, report: Report },
    /// Waiting for the reviewed report to be stored.
    AwaitStored,
    /// Done; the result was handed out.
    Finished,
}

/// The report after `decision` by `by` at `at`, or `None` when the report's
/// rules refuse it.
pub open spec fn decided(r: ReportState, decision: ReviewDecision, by: Seq<char>, at: Timestamp) -> Option<
    ReportState,
> {
    match decision {
        ReviewDecision::Sign => signed(r, by, at),
        ReviewDecision::Reject { reason } => rejected(r, reason@, at),
    }
}

/// Why the report's rules refuse `decision` on `r`.
pub open spec fn decision_refusal(r: ReportState, decision: ReviewDecision) -> Seq<char> {
    match decision {
        ReviewDecision::Sign => sign_refusal(),
        ReviewDecision::Reject { .. } => reject_refusal(r),
    }
}

/// Whether two decisions are the same verdict, with the same reason.
pub open spec fn same_decision(a: ReviewDecision, b: ReviewDecision) -> bool {
    match (a, b) {
        (ReviewDecision::Sign, ReviewDecision::Sign) => true,
        (ReviewDecision::Reject { reason: x }, ReviewDecision::Reject { reason: y }) => x@ == y@,
        _ => false,
    }
}

impl ReviewFlow {
    /// Whether `event` answers the round-trip this flow waits for.
    pub open spec fn expects(&self, event: &ReportEvent) -> bool {
        match self {
            ReviewFlow::AwaitReport { .. } => event is Report,
            ReviewFlow::AwaitActor { .. } => event is Actor,
            ReviewFlow::AwaitSignature { .. } => event is Signature,
            ReviewFlow::AwaitClock { .. } => event is Clock,
            ReviewFlow::AwaitStored => event is Stored,
            ReviewFlow::Finished => false,
        }
    }

    /// Begin `actor`'s `decision` on report `id`: first look the report up.
    pub fn start(actor: UserId, id: ReportId, decision: ReviewDecision) -> (r: (ReviewFlow, ReportAction))
        ensures
            r.0 matches ReviewFlow::AwaitReport { actor: a, id: i, decision: d } && a@ == actor@
                && i@ == id@ && same_decision(d, decision),
            r.1 matches ReportAction::LookupReport(i) && i@ == id@,
    {
        let lookup = id.clone();
        proof {
            same_decision_refl(decision);
        }
        (ReviewFlow::AwaitReport { actor, id, decision }, ReportAction::LookupReport(lookup))
    }

    /// The next state and action once `event` answered the last round-trip.
    ///
    /// Only a signer of the report's department may decide on it; to sign,
    /// the signer must have a signature on file; then the report's own rules
    /// decide at the time the clock reads.
    pub fn step(self, event: ReportEvent) -> (r: (ReviewFlow, ReportAction))
        requires
            self.expects(&event),
        ensures
            match (self, event) {
                (ReviewFlow::AwaitReport { actor, id, decision }, ReportEvent::Report(found)) => match found {
                    None => {
                        &&& r.0 is Finished
                        &&& r.1 matches ReportAction::Finish(Err(e)) && e is NotFound
                            && e.message() == missing_report_message(id@)
                    },
                    Some(rep) => {
                        &&& r.0 matches ReviewFlow::AwaitActor { actor: a, decision: d, report: kept }
                            && a@ == actor@ && same_decision(d, decision) && kept@ == rep@
                        &&& r.1 matches ReportAction::LookupUser(u) && u@ == actor@
                    },
                },
                (ReviewFlow::AwaitActor { actor, decision, report }, ReportEvent::Actor(user)) => match user {
                    None => {
                        &&& r.0 is Finished
                        &&& r.1 matches ReportAction::Finish(Err(e)) && e is NotFound
                            && e.message() == missing_user_message(actor@)
                    },
                    Some(u) => match u@.department {
                        None => {
                            &&& r.0 is Finished
                            &&& r.1 matches ReportAction::Finish(Err(e)) && e is Forbidden
                                && e.message() == "you have no department assigned"@
                        },
                        Some(d) => if u@.marker == DirectoryMarker::Regular && d
                            == report@.department {
                            match decision {
                                ReviewDecision::Sign => {
                                    &&& r.0 matches ReviewFlow::AwaitSignature { actor: a, report: kept }
                                        && a@ == actor@ && kept@ == report@
                                    &&& r.1 matches ReportAction::LookupSignature(x) && x@ == actor@
                                },
                                ReviewDecision::Reject { .. } => {
                                    &&& r.0 matches ReviewFlow::AwaitClock {
                                        actor: a,
                                        decision: dd,
                                        report: kept,
                                    } && a@ == actor@ && same_decision(dd, decision) && kept@
                                        == report@
                                    &&& r.1 is ReadClock
                                },
                            }
                        } else {
                            &&& r.0 is Finished
                            &&& r.1 matches ReportAction::Finish(Err(e)) && e is Forbidden
                                && e.message()
                                == "only a signer in this report's department may sign or reject it"@
                        },
                    },
                },
                (ReviewFlow::AwaitSignature { actor, report }, ReportEvent::Signature(sig)) => match sig {
                    None => {
                        &&& r.0 is Finished
                        &&& r.1 matches ReportAction::Finish(Err(e)) && e is Precondition
                            && e.message()
                            == "register a signature before submitting or signing a report"@
                    },
                    Some(_) => {
                        &&& r.0 matches ReviewFlow::AwaitClock { actor: a, decision: dd, report: kept }
                            && a@ == actor@ && dd is Sign && kept@ == report@
                        &&& r.1 is ReadClock
                    },
                },
                (ReviewFlow::AwaitClock { actor, decision, report }, ReportEvent::Clock(at)) => match decided(
                    report@,
                    decision,
                    actor@,
                    at,
                ) {
                    None => {
                        &&& r.0 is Finished
                        &&& r.1 matches ReportAction::Finish(Err(e)) && e is Invalid
                            && e.message() == decision_refusal(report@, decision)
                    },
                    Some(next) => {
                        &&& r.0 is AwaitStored
                        &&& r.1 matches ReportAction::Store(rep) && rep@ == next
                    },
                },
                (ReviewFlow::AwaitStored, ReportEvent::Stored) => {
                    &&& r.0 is Finished
                    &&& r.1 matches ReportAction::Finish(Ok(()))
                },
                _ => false,
            },
    {
        match self {
            ReviewFlow::AwaitReport { actor, id, decision } => {
                let found = match event {
                    ReportEvent::Report(found) => found,
                    _ => { return (ReviewFlow::Finished, ReportAction::ReadClock); },
                };
                match found_report(found, &id) {
                    Ok(report) => {
                        let lookup = actor.clone();
                        proof {
                            same_decision_refl(decision);
                        }
                        (
                            ReviewFlow::AwaitActor { actor, decision, report },
                            ReportAction::LookupUser(lookup),
                        )
                    },
                    Err(e) => (ReviewFlow::Finished, ReportAction::Finish(Err(e))),
                }
            },
            ReviewFlow::AwaitActor { actor, decision, report } => {
                let user = match event {
                    ReportEvent::Actor(user) => user,
                    _ => { return (ReviewFlow::Finished, ReportAction::ReadClock); },
                };
                let role = match role_of(user, &actor) {
                    Ok(role) => role,
                    Err(e) => { return (ReviewFlow::Finished, ReportAction::Finish(Err(e))); },
                };
                match require_signer_for(&role, &report) {
                    Ok(()) => match decision {
                        ReviewDecision::Sign => {
                            let lookup = actor.clone();
                            (
                                ReviewFlow::AwaitSignature { actor, report },
                                ReportAction::LookupSignature(lookup),
                            )
                        },
                        ReviewDecision::Reject { reason } => {
                            let decision = ReviewDecision::Reject { reason };
                            proof {
                                same_decision_refl(decision);
                            }
                            (ReviewFlow::AwaitClock { actor, decision, report }, ReportAction::ReadClock)
                        },
                    },
                    Err(e) => (ReviewFlow::Finished, ReportAction::Finish(Err(e))),
                }
            },
            ReviewFlow::AwaitSignature { actor, report } => {
                let sig = match event {
                    ReportEvent::Signature(sig) => sig,
                    _ => { return (ReviewFlow::Finished, ReportAction::ReadClock); },
                };
                match require_signature(sig) {
                    Ok(()) => (
                        ReviewFlow::AwaitClock { actor, decision: ReviewDecision::Sign, report },
                        ReportAction::ReadClock,
                    ),
                    Err(e) => (ReviewFlow::Finished, ReportAction::Finish(Err(e))),
                }
            },
            ReviewFlow::AwaitClock { actor, decision, report } => {
                let at = match event {
                    ReportEvent::Clock(at) => at,
                    _ => { return (ReviewFlow::Finished, ReportAction::ReadClock); },
                };
                let mut report = report;
                match report.review(actor, decision, at) {
                    Ok(()) => (ReviewFlow::AwaitStored, ReportAction::Store(report)),
                    Err(e) => (ReviewFlow::Finished, ReportAction::Finish(Err(e))),
                }
            },
            ReviewFlow::AwaitStored => (ReviewFlow::Finished, ReportAction::Finish(Ok(()))),
            ReviewFlow::Finished => (ReviewFlow::Finished, ReportAction::ReadClock),
        }
    }
}

proof fn same_decision_refl(d: ReviewDecision)
    ensures
        same_decision(d, d),
{
}

/// Whether no author has two stored reports for one week, in report storage
/// keyed by report id.
pub open spec fn one_report_per_week(store: Map<Seq<char>, ReportState>) -> bool {
    forall|a: Seq<char>, b: Seq<char>|
        #![trigger store[a], store[b]]
        store.dom().contains(a) && store.dom().contains(b) && a != b ==> !(store[a].author
            == store[b].author && store[a].week == store[b].week)
}

/// Whether `listed` holds every report of `author` in `store`.
pub open spec fn lists_all_by(
    store: Map<Seq<char>, ReportState>,
    author: Seq<char>,
    listed: Seq<Report>,
) -> bool {
    forall|k: Seq<char>|
        store.dom().contains(k) && (#[trigger] store[k]).author == author ==> exists|i: int|
            0 <= i < listed.len() && listed[i]@ == store[k]
}

/// At most one report per trainee per week, across calls: when storage holds
/// no two reports of one author for one week, and a draft is stored after the
/// author's listed reports (all of them) were found not to cover its week — as
/// [`DraftFlow::step`] only then stores one — storage still holds no two.
pub proof fn lemma_drafts_keep_one_report_per_week(
    store: Map<Seq<char>, ReportState>,
    listed: Seq<Report>,
    draft: ReportState,
)
    requires
        one_report_per_week(store),
        lists_all_by(store, draft.author, listed),
        !covers_week(listed, draft.week),
    ensures
        one_report_per_week(store.insert(draft.id, draft)),
{
    let after = store.insert(draft.id, draft);
    assert forall|a: Seq<char>, b: Seq<char>|
        after.dom().contains(a) && after.dom().contains(b) && a != b implies !(
        #[trigger] after[a].author == #[trigger] after[b].author && after[a].week == after[b].week) by {
        if a == draft.id || b == draft.id {
            let other = if a == draft.id { b } else { a };
            assert(store.dom().contains(other));
            assert(after[other] == store[other]);
            if store[other].author == draft.author && store[other].week == draft.week {
                let i = choose|i: int| 0 <= i < listed.len() && listed[i]@ == store[other];
                assert(listed[i]@.week == draft.week);
                assert(covers_week(listed, draft.week));
            }
        } else {
            assert(after[a] == store[a]);
            assert(after[b] == store[b]);
        }
    }
}

} // verus!
