//! Reports written by trainees and signed by their department's signers.
//!
//! A trainee drafts a [`Report`] as markdown, then submits it into their
//! department's queue. A signer either signs it or rejects it with a reason; a
//! rejected report can be revised and resubmitted, looping until signed.
//!
//! ```text
//!   ┌──────────── revise ┐
//!   ▼                    │
//! Draft ── submit ─► Submitted ── sign ─► Signed
//!   ▲                    │
//!   │                    └── reject(reason) ─► Rejected
//!   └──────────── revise ◄────────────────────────┘
//! ```
//!
//! The methods here own the *state* invariants — which transition is legal from
//! which status. They are pure: no I/O, no clock, no notion of who is calling.
//! Authorization and the wall clock live in the report service.

use vstd::prelude::*;

use crate::errors::DomainError;
use crate::models::ids::{DepartmentId, ReportId, UserId};
use crate::models::time::{utc_iso_week, Timestamp};
use crate::models::week::{week_after, IsoWeek};
use crate::textual::{blank, is_blank};

verus! {

/// Where a [`Report`] sits in the submit → sign cycle.
#[derive(Debug)]
pub enum ReviewStatus {
    /// Being written or revised by the trainee; not yet in the queue.
    Draft,
    /// In the department queue, awaiting a signer's verdict.
    Submitted { at: Timestamp },
    /// A signer signed the report; `by` records who put their signature on it.
    Signed { at: Timestamp, by: UserId },
    /// A signer rejected the report; `reason` explains why.
    Rejected { at: Timestamp, reason: String },
}

/// The abstract content of a [`ReviewStatus`].
pub enum StatusView {
    Draft,
    Submitted { at: Timestamp },
    Signed { at: Timestamp, by: Seq<char> },
    Rejected { at: Timestamp, reason: Seq<char> },
}

impl View for ReviewStatus {
    type V = StatusView;

    open spec fn view(&self) -> StatusView {
        match self {
            ReviewStatus::Draft => StatusView::Draft,
            ReviewStatus::Submitted { at } => StatusView::Submitted { at: *at },
            ReviewStatus::Signed { at, by } => StatusView::Signed { at: *at, by: by@ },
            ReviewStatus::Rejected { at, reason } => StatusView::Rejected {
                at: *at,
                reason: reason@,
            },
        }
    }
}

impl Clone for ReviewStatus {
    fn clone(&self) -> (r: ReviewStatus)
        ensures
            r@ == self@,
    {
        match self {
            ReviewStatus::Draft => ReviewStatus::Draft,
            ReviewStatus::Submitted { at } => ReviewStatus::Submitted { at: *at },
            ReviewStatus::Signed { at, by } => ReviewStatus::Signed { at: *at, by: by.clone() },
            ReviewStatus::Rejected { at, reason } => ReviewStatus::Rejected {
                at: *at,
                reason: reason.clone(),
            },
        }
    }
}

/// A signer's verdict on a submitted report.
#[derive(Debug)]
pub enum ReviewDecision {
    Sign,
    Reject { reason: String },
}

/// A single report and where it is in the review workflow.
#[derive(Debug)]
pub struct Report {
    id: ReportId,
    author: UserId,
    department: DepartmentId,
    week: IsoWeek,
    content: String,
    status: ReviewStatus,
}

/// The abstract content of a [`Report`].
pub struct ReportState {
    pub id: Seq<char>,
    pub author: Seq<char>,
    pub department: Seq<char>,
    pub week: IsoWeek,
    pub content: Seq<char>,
    pub status: StatusView,
}

impl View for Report {
    type V = ReportState;

    closed spec fn view(&self) -> ReportState {
        ReportState {
            id: self.id@,
            author: self.author@,
            department: self.department@,
            week: self.week,
            content: self.content@,
            status: self.status@,
        }
    }
}

/// The ISO week containing `at`, in UTC.
pub open spec fn week_of(at: Timestamp) -> (int, int) {
    utc_iso_week(at.second(), at.nanosecond())
}

/// Whether `week` lies after the week containing `at`.
pub open spec fn in_the_future(week: IsoWeek, at: Timestamp) -> bool {
    week.year_spec() > week_of(at).0 || (week.year_spec() == week_of(at).0 && week.week_spec()
        > week_of(at).1)
}

/// `r` with `content` and `status` replaced.
pub open spec fn with_body(r: ReportState, content: Seq<char>, status: StatusView) -> ReportState {
    ReportState { content, status, ..r }
}

/// `r` with `status` replaced.
pub open spec fn with_status(r: ReportState, status: StatusView) -> ReportState {
    ReportState { status, ..r }
}

/// The report after revising `r` to `content`, or `None` when that is refused:
/// only a signed report cannot be revised, and revising returns it to a draft.
pub open spec fn revised(r: ReportState, content: Seq<char>) -> Option<ReportState> {
    match r.status {
        StatusView::Signed { .. } => None,
        _ => Some(with_body(r, content, StatusView::Draft)),
    }
}

/// The report after submitting `r` at `at`, or `None` when that is refused: only
/// drafts and rejected reports are submitted, never with a blank body, and never
/// for a week after the one containing `at`.
pub open spec fn submitted(r: ReportState, at: Timestamp) -> Option<ReportState> {
    match r.status {
        StatusView::Draft | StatusView::Rejected { .. } => {
            if is_blank(r.content) || in_the_future(r.week, at) {
                None
            } else {
                Some(with_status(r, StatusView::Submitted { at }))
            }
        },
        _ => None,
    }
}

/// The report after `by` signs `r` at `at`, or `None` unless `r` is awaiting a
/// signature.
pub open spec fn signed(r: ReportState, by: Seq<char>, at: Timestamp) -> Option<ReportState> {
    match r.status {
        StatusView::Submitted { .. } => Some(with_status(r, StatusView::Signed { at, by })),
        _ => None,
    }
}

/// The report after rejecting `r` for `reason` at `at`, or `None` unless `r` is
/// awaiting a signature and the reason is not blank.
pub open spec fn rejected(r: ReportState, reason: Seq<char>, at: Timestamp) -> Option<
    ReportState,
> {
    match r.status {
        StatusView::Submitted { .. } => {
            if is_blank(reason) {
                None
            } else {
                Some(with_status(r, StatusView::Rejected { at, reason }))
            }
        },
        _ => None,
    }
}

/// Why a revision is refused, when it is.
pub open spec fn revise_refusal() -> Seq<char> {
    "cannot revise a report that has been signed"@
}

/// Why submitting `r` is refused, when it is.
pub open spec fn submit_refusal(r: ReportState) -> Seq<char> {
    match r.status {
        StatusView::Draft | StatusView::Rejected { .. } => if is_blank(r.content) {
            "cannot submit an empty report"@
        } else {
            "cannot submit a report for a future week"@
        },
        StatusView::Submitted { .. } => "report is already awaiting a signature"@,
        StatusView::Signed { .. } => "cannot resubmit a report that has been signed"@,
    }
}

/// Why a signature is refused, when it is.
pub open spec fn sign_refusal() -> Seq<char> {
    "can only sign a report that is awaiting a signature"@
}

/// Why rejecting `r` is refused, when it is.
pub open spec fn reject_refusal(r: ReportState) -> Seq<char> {
    match r.status {
        StatusView::Submitted { .. } => "a rejection must carry a reason"@,
        _ => "can only reject a report that is awaiting a signature"@,
    }
}

/// How a transition that yields `next` (or refuses, with `None`) relates the
/// report before, the report after, and the result.
pub open spec fn transition(
    before: ReportState,
    after: ReportState,
    result: Result<(), DomainError>,
    next: Option<ReportState>,
) -> bool {
    match next {
        Some(n) => result is Ok && after == n,
        None => (result matches Err(e) && e is Invalid) && after == before,
    }
}

impl Report {
    /// Start a fresh report in [`ReviewStatus::Draft`], belonging to
    /// `department` (the author's department at the time of drafting) and
    /// covering `week`.
    pub fn new(
        id: ReportId,
        author: UserId,
        department: DepartmentId,
        week: IsoWeek,
        content: String,
    ) -> (r: Report)
        ensures
            r@ == (ReportState {
                id: id@,
                author: author@,
                department: department@,
                week,
                content: content@,
                status: StatusView::Draft,
            }),
    {
        Report { id, author, department, week, content, status: ReviewStatus::Draft }
    }

    /// Reconstitute a report from already-persisted parts, including its status.
    ///
    /// Storage uses this to load a row back into memory; application logic
    /// drives state changes through the workflow methods instead.
    pub fn from_parts(
        id: ReportId,
        author: UserId,
        department: DepartmentId,
        week: IsoWeek,
        content: String,
        status: ReviewStatus,
    ) -> (r: Report)
        ensures
            r@ == (ReportState {
                id: id@,
                author: author@,
                department: department@,
                week,
                content: content@,
                status: status@,
            }),
    {
        Report { id, author, department, week, content, status }
    }

    /// Replace the markdown body. Allowed while the report is a draft, still
    /// submitted, or has been rejected; revising returns it to a draft.
    pub fn revise(&mut self, content: String) -> (r: Result<(), DomainError>)
        ensures
            transition(old(self)@, final(self)@, r, revised(old(self)@, content@)),
            r matches Err(e) ==> e.message() == revise_refusal(),
    {
        match self.status {
            ReviewStatus::Signed { .. } => Err(
                DomainError::Invalid(String::from_str("cannot revise a report that has been signed")),
            ),
            _ => {
                self.content = content;
                self.status = ReviewStatus::Draft;
                Ok(())
            },
        }
    }

    /// Submit the report into its department's queue. Allowed from a draft or a
    /// rejected report; the body must not be blank, and the covered week must
    /// not be after the ISO week (in UTC) containing `at`.
    pub fn submit(&mut self, at: Timestamp) -> (r: Result<(), DomainError>)
        ensures
            transition(old(self)@, final(self)@, r, submitted(old(self)@, at)),
            r matches Err(e) ==> e.message() == submit_refusal(old(self)@),
    {
        match self.status {
            ReviewStatus::Draft | ReviewStatus::Rejected { .. } => {
                if blank(self.content.as_str()) {
                    return Err(
                        DomainError::Invalid(String::from_str("cannot submit an empty report")),
                    );
                }
                if self.week.is_after(&IsoWeek::from_timestamp_utc(at)) {
                    return Err(
                        DomainError::Invalid(
                            String::from_str("cannot submit a report for a future week"),
                        ),
                    );
                }
                self.status = ReviewStatus::Submitted { at };
                Ok(())
            },
            ReviewStatus::Submitted { .. } => Err(
                DomainError::Invalid(String::from_str("report is already awaiting a signature")),
            ),
            ReviewStatus::Signed { .. } => Err(
                DomainError::Invalid(
                    String::from_str("cannot resubmit a report that has been signed"),
                ),
            ),
        }
    }

    /// Sign the report on behalf of signer `by`. Only valid while it is
    /// submitted.
    pub fn sign(&mut self, by: UserId, at: Timestamp) -> (r: Result<(), DomainError>)
        ensures
            transition(old(self)@, final(self)@, r, signed(old(self)@, by@, at)),
            r matches Err(e) ==> e.message() == sign_refusal(),
    {
        match self.status {
            ReviewStatus::Submitted { .. } => {
                self.status = ReviewStatus::Signed { at, by };
                Ok(())
            },
            _ => Err(
                DomainError::Invalid(
                    String::from_str("can only sign a report that is awaiting a signature"),
                ),
            ),
        }
    }

    /// Reject the report with a reason. Only valid while it is submitted; the
    /// reason must not be blank.
    pub fn reject(&mut self, reason: String, at: Timestamp) -> (r: Result<(), DomainError>)
        ensures
            transition(old(self)@, final(self)@, r, rejected(old(self)@, reason@, at)),
            r matches Err(e) ==> e.message() == reject_refusal(old(self)@),
    {
        match self.status {
            ReviewStatus::Submitted { .. } => {
                if blank(reason.as_str()) {
                    return Err(
                        DomainError::Invalid(String::from_str("a rejection must carry a reason")),
                    );
                }
                self.status = ReviewStatus::Rejected { at, reason };
                Ok(())
            },
            _ => Err(
                DomainError::Invalid(
                    String::from_str("can only reject a report that is awaiting a signature"),
                ),
            ),
        }
    }

    /// Apply a signer's [`ReviewDecision`], dispatching to [`sign`](Self::sign)
    /// or [`reject`](Self::reject). `signer` is recorded as the signature when
    /// the decision is to sign.
    pub fn review(&mut self, signer: UserId, decision: ReviewDecision, at: Timestamp) -> (r: Result<
        (),
        DomainError,
    >)
        ensures
            transition(
                old(self)@,
                final(self)@,
                r,
                match decision {
                    ReviewDecision::Sign => signed(old(self)@, signer@, at),
                    ReviewDecision::Reject { reason } => rejected(old(self)@, reason@, at),
                },
            ),
            r matches Err(e) ==> e.message() == match decision {
                ReviewDecision::Sign => sign_refusal(),
                ReviewDecision::Reject { .. } => reject_refusal(old(self)@),
            },
    {
        match decision {
            ReviewDecision::Sign => self.sign(signer, at),
            ReviewDecision::Reject { reason } => self.reject(reason, at),
        }
    }

    /// This report's stable identity.
    pub fn id(&self) -> (r: &ReportId)
        ensures
            r@ == self@.id,
    {
        &self.id
    }

    /// The trainee who wrote the report.
    pub fn author(&self) -> (r: &UserId)
        ensures
            r@ == self@.author,
    {
        &self.author
    }

    /// The department whose queue this report belongs to.
    pub fn department(&self) -> (r: &DepartmentId)
        ensures
            r@ == self@.department,
    {
        &self.department
    }

    /// The ISO week this report covers.
    pub fn week(&self) -> (r: &IsoWeek)
        ensures
            *r == self@.week,
    {
        &self.week
    }

    /// The current markdown body.
    pub fn content(&self) -> (r: &str)
        ensures
            r@ == self@.content,
    {
        self.content.as_str()
    }

    /// Where the report sits in the review workflow.
    pub fn status(&self) -> (r: &ReviewStatus)
        ensures
            r@ == self@.status,
    {
        &self.status
    }
}

impl Clone for Report {
    fn clone(&self) -> (r: Report)
        ensures
            r@ == self@,
    {
        Report {
            id: self.id.clone(),
            author: self.author.clone(),
            department: self.department.clone(),
            week: self.week,
            content: self.content.clone(),
            status: self.status.clone(),
        }
    }
}

/// Whether `a` and `b` are the same report: same id, author, department and week.
pub open spec fn same_report(a: ReportState, b: ReportState) -> bool {
    a.id == b.id && a.author == b.author && a.department == b.department && a.week == b.week
}

/// A signed report is final: it can no longer be revised, resubmitted, signed
/// again or rejected.
pub proof fn lemma_signed_is_final(
    r: ReportState,
    content: Seq<char>,
    reason: Seq<char>,
    by: Seq<char>,
    at: Timestamp,
)
    requires
        r.status is Signed,
    ensures
        revised(r, content) is None,
        submitted(r, at) is None,
        signed(r, by, at) is None,
        rejected(r, reason, at) is None,
{
}

/// No transition changes which report it is: id, author, department and week
/// are fixed when the draft is created.
pub proof fn lemma_transitions_keep_identity(
    r: ReportState,
    content: Seq<char>,
    reason: Seq<char>,
    by: Seq<char>,
    at: Timestamp,
)
    ensures
        revised(r, content) matches Some(n) ==> same_report(r, n),
        submitted(r, at) matches Some(n) ==> same_report(r, n),
        signed(r, by, at) matches Some(n) ==> same_report(r, n),
        rejected(r, reason, at) matches Some(n) ==> same_report(r, n),
{
}

/// A signature can only be put on a report that is awaiting one, and it
/// records the signer and the time.
pub proof fn lemma_sign_records_signer(r: ReportState, by: Seq<char>, at: Timestamp)
    ensures
        signed(r, by, at) is Some <==> r.status is Submitted,
        signed(r, by, at) matches Some(n) ==> n.status == (StatusView::Signed { at, by }),
{
}

/// The review loop: a rejected report can be revised and resubmitted (as long
/// as the new body is not blank and its week has begun), or resubmitted as it
/// stands.
pub proof fn lemma_rejection_loop(
    r: ReportState,
    reason: Seq<char>,
    content: Seq<char>,
    at: Timestamp,
    later: Timestamp,
)
    requires
        r.status is Submitted,
        !is_blank(reason),
        !is_blank(content),
        !in_the_future(r.week, later),
    ensures
        rejected(r, reason, at) is Some,
        revised(rejected(r, reason, at)->0, content) is Some,
        submitted(revised(rejected(r, reason, at)->0, content)->0, later) is Some,
        submitted(revised(rejected(r, reason, at)->0, content)->0, later)->0.status == (
        StatusView::Submitted { at: later }),
        !is_blank(r.content) ==> submitted(rejected(r, reason, at)->0, later) is Some,
{
}

} // verus!
