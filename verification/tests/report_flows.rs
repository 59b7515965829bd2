use relatum::errors::DomainError;
use relatum::models::ids::{DepartmentId, ReportId, UserId};
use relatum::models::report::{Report, ReviewDecision, ReviewStatus};
use relatum::models::signature::{Signature, SignatureFormat, StoredSignature};
use relatum::models::time::Timestamp;
use relatum::models::users::{DirectoryMarker, User};
use relatum::models::week::IsoWeek;
use relatum::services::report::ReportForExport;
use relatum::services::steps::{
    DraftAction, DraftEvent, DraftFlow, ExportAction, ExportFlow, ReportAction, ReportEvent, ReviewFlow, ReviseFlow,
    SubmitFlow, ViewAction, ViewFlow,
};

const INSTRUCTOR: &str = "ins";
const SIGNER: &str = "sig";
const TRAINEE: &str = "tr";
const DEPT: &str = "blue";

/// In-memory storage that answers the flows' round-trips.
struct World {
    users: Vec<User>,
    reports: Vec<Report>,
    signatures: Vec<(UserId, StoredSignature)>,
    next_id: u32,
    clock: Timestamp,
}

fn id(name: &str) -> UserId {
    UserId::new(name)
}

fn user(name: &str, marker: DirectoryMarker, department: Option<&str>) -> User {
    User::new(id(name), name.to_string(), marker, department.map(DepartmentId::new))
}

fn wk(week: i8) -> IsoWeek {
    IsoWeek::new(2026, week).unwrap()
}

fn dev_signature() -> StoredSignature {
    let png = vec![0x89, 0x50, 0x4E, 0x47, 0x0D, 0x0A, 0x1A, 0x0A, 0x00, 0x01];
    StoredSignature {
        signature: Signature::new(SignatureFormat::Png, png).unwrap(),
        updated_at: Timestamp::new(1_781_092_800, 0).unwrap(),
    }
}

impl World {
    /// An instructor, a signer and a trainee, all in `blue`; the trainee and the
    /// signer have signatures on file. The clock reads 2026-06-14 (ISO week 24).
    fn new() -> World {
        World {
            users: vec![
                user(INSTRUCTOR, DirectoryMarker::Instructor, Some(DEPT)),
                user(SIGNER, DirectoryMarker::Regular, Some(DEPT)),
                user(TRAINEE, DirectoryMarker::Trainee, Some(DEPT)),
            ],
            reports: Vec::new(),
            signatures: vec![(id(TRAINEE), dev_signature()), (id(SIGNER), dev_signature())],
            next_id: 0,
            clock: Timestamp::new(1_781_436_600, 0).unwrap(),
        }
    }

    fn add_user(&mut self, u: User) {
        self.users.push(u);
    }

    fn set_signature(&mut self, who: &str) {
        self.signatures.push((id(who), dev_signature()));
    }

    fn lookup_user(&self, who: &UserId) -> Option<User> {
        self.users.iter().find(|u| u.id() == who).cloned()
    }

    fn lookup_report(&self, rid: &ReportId) -> Option<Report> {
        self.reports.iter().find(|r| r.id() == rid).cloned()
    }

    fn store(&mut self, report: Report) {
        self.reports.retain(|r| r.id() != report.id());
        self.reports.push(report);
    }

    fn create_draft(&mut self, author: &str, week: IsoWeek, content: &str) -> Result<ReportId, DomainError> {
        let (mut flow, mut action) = DraftFlow::start(id(author), week, content.to_string());
        loop {
            let event = match action {
                DraftAction::LookupUser(u) => DraftEvent::Author(self.lookup_user(&u)),
                DraftAction::ListAuthored(u) => DraftEvent::Authored(
                    self.reports.iter().filter(|r| r.author() == &u).cloned().collect(),
                ),
                DraftAction::IssueId => {
                    self.next_id += 1;
                    DraftEvent::Id(ReportId::new(&format!("r{}", self.next_id)))
                }
                DraftAction::Store(report) => {
                    self.store(report);
                    DraftEvent::Stored
                }
                DraftAction::Finish(result) => return result,
            };
            (flow, action) = flow.step(event);
        }
    }

    /// Answer one round-trip of a submission, revision or review.
    fn perform(&mut self, action: ReportAction) -> Result<ReportEvent, Result<(), DomainError>> {
        Ok(match action {
            ReportAction::LookupReport(rid) => ReportEvent::Report(self.lookup_report(&rid)),
            ReportAction::LookupUser(u) => ReportEvent::Actor(self.lookup_user(&u)),
            ReportAction::LookupSignature(u) => ReportEvent::Signature(
                self.signatures.iter().find(|(who, _)| *who == u).map(|(_, s)| s.clone()),
            ),
            ReportAction::ReadClock => ReportEvent::Clock(self.clock),
            ReportAction::Store(report) => {
                self.store(report);
                ReportEvent::Stored
            }
            ReportAction::Finish(result) => return Err(result),
        })
    }

    fn submit(&mut self, actor: &str, rid: &ReportId) -> Result<(), DomainError> {
        let (mut flow, mut action) = SubmitFlow::start(id(actor), rid.clone());
        loop {
            match self.perform(action) {
                Ok(event) => (flow, action) = flow.step(event),
                Err(result) => return result,
            }
        }
    }

    fn revise(&mut self, actor: &str, rid: &ReportId, content: &str) -> Result<(), DomainError> {
        let (mut flow, mut action) = ReviseFlow::start(id(actor), rid.clone(), content.to_string());
        loop {
            match self.perform(action) {
                Ok(event) => (flow, action) = flow.step(event),
                Err(result) => return result,
            }
        }
    }

    fn review(&mut self, actor: &str, rid: &ReportId, decision: ReviewDecision) -> Result<(), DomainError> {
        let (mut flow, mut action) = ReviewFlow::start(id(actor), rid.clone(), decision);
        loop {
            match self.perform(action) {
                Ok(event) => (flow, action) = flow.step(event),
                Err(result) => return result,
            }
        }
    }

    fn sign(&mut self, actor: &str, rid: &ReportId) -> Result<(), DomainError> {
        self.review(actor, rid, ReviewDecision::Sign)
    }

    fn reject(&mut self, actor: &str, rid: &ReportId, reason: &str) -> Result<(), DomainError> {
        self.review(actor, rid, ReviewDecision::Reject { reason: reason.to_string() })
    }

    fn get(&self, actor: &str, rid: &ReportId) -> Result<Report, DomainError> {
        let (mut flow, mut action) = ViewFlow::start(id(actor), rid.clone());
        loop {
            let event = match action {
                ViewAction::LookupReport(r) => ReportEvent::Report(self.lookup_report(&r)),
                ViewAction::LookupUser(u) => ReportEvent::Actor(self.lookup_user(&u)),
                ViewAction::Finish(result) => return result,
            };
            (flow, action) = flow.step(event);
        }
    }

    fn export_inputs(&self, actor: &str, rid: &ReportId) -> Result<ReportForExport, DomainError> {
        let (mut flow, mut action) = ExportFlow::start(id(actor), rid.clone());
        loop {
            let event = match action {
                ExportAction::LookupReport(r) => ReportEvent::Report(self.lookup_report(&r)),
                ExportAction::LookupUser(u) => ReportEvent::Actor(self.lookup_user(&u)),
                ExportAction::LookupSignature(u) => ReportEvent::Signature(
                    self.signatures.iter().find(|(who, _)| *who == u).map(|(_, s)| s.clone()),
                ),
                ExportAction::Finish(result) => return result,
            };
            (flow, action) = flow.step(event);
        }
    }

    fn status(&self, rid: &ReportId) -> ReviewStatus {
        self.lookup_report(rid).unwrap().status().clone()
    }
}

fn submitted_report(world: &mut World) -> ReportId {
    let rid = world.create_draft(TRAINEE, wk(24), "# done").unwrap();
    world.submit(TRAINEE, &rid).unwrap();
    rid
}

#[test]
fn trainee_creates_a_draft_in_their_department() {
    let mut world = World::new();
    let rid = world.create_draft(TRAINEE, wk(24), "# week 1").unwrap();
    let report = world.lookup_report(&rid).unwrap();
    assert_eq!(report.author().as_str(), TRAINEE);
    assert_eq!(report.department().as_str(), DEPT);
    assert!(matches!(report.status(), ReviewStatus::Draft));
}

#[test]
fn at_most_one_report_per_trainee_per_week() {
    let mut world = World::new();
    world.create_draft(TRAINEE, wk(24), "# first").unwrap();
    let err = world.create_draft(TRAINEE, wk(24), "# dup").unwrap_err();
    assert!(matches!(err, DomainError::Conflict(_)));
    assert!(world.create_draft(TRAINEE, wk(25), "# next").is_ok());
}

#[test]
fn only_a_trainee_may_author_a_report() {
    let mut world = World::new();
    for non_trainee in [INSTRUCTOR, SIGNER] {
        let err = world.create_draft(non_trainee, wk(24), "x").unwrap_err();
        assert!(matches!(err, DomainError::Forbidden(_)));
    }
}

#[test]
fn a_user_without_a_department_cannot_author() {
    let mut world = World::new();
    world.add_user(user("inert", DirectoryMarker::Trainee, None));
    let err = world.create_draft("inert", wk(24), "x").unwrap_err();
    assert!(matches!(err, DomainError::Forbidden(_)));
}

#[test]
fn create_draft_for_an_unknown_user_is_not_found() {
    let err = World::new().create_draft("ghost", wk(24), "x").unwrap_err();
    assert!(matches!(err, DomainError::NotFound(_)));
}

#[test]
fn only_the_author_may_revise_and_submit() {
    let mut world = World::new();
    let rid = world.create_draft(TRAINEE, wk(24), "x").unwrap();
    let revise_err = world.revise(SIGNER, &rid, "y").unwrap_err();
    assert!(matches!(revise_err, DomainError::Forbidden(_)));
    let submit_err = world.submit(SIGNER, &rid).unwrap_err();
    assert!(matches!(submit_err, DomainError::Forbidden(_)));
}

#[test]
fn a_signer_in_the_department_can_sign() {
    let mut world = World::new();
    let rid = submitted_report(&mut world);
    world.sign(SIGNER, &rid).unwrap();
    match world.get(SIGNER, &rid).unwrap().status() {
        ReviewStatus::Signed { by, .. } => assert_eq!(by.as_str(), SIGNER),
        other => panic!("expected Signed, got {other:?}"),
    }
}

#[test]
fn a_signer_from_another_department_cannot_sign() {
    let mut world = World::new();
    world.add_user(user("other-sig", DirectoryMarker::Regular, Some("red")));
    let rid = submitted_report(&mut world);
    let err = world.sign("other-sig", &rid).unwrap_err();
    assert!(matches!(err, DomainError::Forbidden(_)));
}

#[test]
fn a_trainee_without_a_signature_cannot_submit() {
    let mut world = World::new();
    world.add_user(user("tr2", DirectoryMarker::Trainee, Some(DEPT)));
    let rid = world.create_draft("tr2", wk(24), "# done").unwrap();

    let err = world.submit("tr2", &rid).unwrap_err();
    assert!(matches!(err, DomainError::Precondition(_)));
    assert!(matches!(world.status(&rid), ReviewStatus::Draft));

    world.set_signature("tr2");
    world.submit("tr2", &rid).unwrap();
    assert!(matches!(world.status(&rid), ReviewStatus::Submitted { .. }));
}

#[test]
fn a_signer_without_a_signature_cannot_sign() {
    let mut world = World::new();
    world.add_user(user("sig2", DirectoryMarker::Regular, Some(DEPT)));
    let rid = submitted_report(&mut world);

    let err = world.sign("sig2", &rid).unwrap_err();
    assert!(matches!(err, DomainError::Precondition(_)));
    assert!(matches!(world.status(&rid), ReviewStatus::Submitted { .. }));

    world.set_signature("sig2");
    world.sign("sig2", &rid).unwrap();
    match world.get("sig2", &rid).unwrap().status() {
        ReviewStatus::Signed { by, .. } => assert_eq!(by.as_str(), "sig2"),
        other => panic!("expected Signed, got {other:?}"),
    }
}

#[test]
fn an_instructor_can_read_but_not_sign() {
    let mut world = World::new();
    let rid = submitted_report(&mut world);
    world.get(INSTRUCTOR, &rid).unwrap();
    let sign_err = world.sign(INSTRUCTOR, &rid).unwrap_err();
    assert!(matches!(sign_err, DomainError::Forbidden(_)));
    let reject_err = world.reject(INSTRUCTOR, &rid, "no").unwrap_err();
    assert!(matches!(reject_err, DomainError::Forbidden(_)));
}

#[test]
fn reject_lets_the_author_revise_and_resubmit() {
    let mut world = World::new();
    let rid = submitted_report(&mut world);
    world.reject(SIGNER, &rid, "needs detail").unwrap();
    world.revise(TRAINEE, &rid, "# better").unwrap();
    world.submit(TRAINEE, &rid).unwrap();
    world.sign(SIGNER, &rid).unwrap();
    assert!(matches!(world.get(SIGNER, &rid).unwrap().status(), ReviewStatus::Signed { .. }));
}

#[test]
fn a_non_author_is_refused_before_the_signature_is_asked_for() {
    let mut world = World::new();
    let rid = world.create_draft(TRAINEE, wk(24), "x").unwrap();
    let (flow, _) = SubmitFlow::start(id(SIGNER), rid.clone());
    let (_, action) = flow.step(ReportEvent::Report(world.lookup_report(&rid)));
    match action {
        ReportAction::Finish(Err(DomainError::Forbidden(m))) => {
            assert_eq!(m, "only the author may submit this report")
        }
        other => panic!("expected a refusal, got {other:?}"),
    }
}

#[test]
fn get_is_forbidden_for_an_unrelated_user() {
    let mut world = World::new();
    world.add_user(user("outsider", DirectoryMarker::Regular, Some("red")));
    let rid = world.create_draft(TRAINEE, wk(24), "x").unwrap();
    let err = world.get("outsider", &rid).unwrap_err();
    assert!(matches!(err, DomainError::Forbidden(_)));
}

#[test]
fn export_inputs_gathers_author_and_signer() {
    let mut world = World::new();
    let rid = submitted_report(&mut world);
    world.sign(SIGNER, &rid).unwrap();
    let ex = world.export_inputs(TRAINEE, &rid).unwrap();
    assert_eq!(ex.author_name, TRAINEE);
    assert!(ex.author_signature.is_some(), "author has a signature on file");
    let signer = ex.signer.expect("a signed report carries a signer");
    assert_eq!(signer.name, SIGNER);
    assert!(signer.signature.is_some(), "signer has a signature on file");
}

#[test]
fn export_inputs_for_an_unsigned_report_has_no_signer() {
    let mut world = World::new();
    let rid = submitted_report(&mut world);
    let ex = world.export_inputs(TRAINEE, &rid).unwrap();
    assert!(ex.signer.is_none());
    assert!(ex.author_signature.is_some());
}

#[test]
fn export_inputs_respects_report_visibility() {
    let mut world = World::new();
    world.add_user(user("outsider", DirectoryMarker::Regular, Some("red")));
    let rid = world.create_draft(TRAINEE, wk(24), "x").unwrap();
    let err = world.export_inputs("outsider", &rid).unwrap_err();
    assert!(matches!(err, DomainError::Forbidden(_)));
}
