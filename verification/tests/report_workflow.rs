use relatum::errors::DomainError;
use relatum::models::ids::{DepartmentId, ReportId, UserId};
use relatum::models::report::{Report, ReviewDecision, ReviewStatus};
use relatum::models::time::Timestamp;
use relatum::models::week::IsoWeek;

fn draft() -> Report {
    Report::new(
        ReportId::new("r1"),
        UserId::new("trainee"),
        DepartmentId::new("blue"),
        IsoWeek::new(2026, 24).unwrap(),
        "# Week 1\n\nDid things.".to_owned(),
    )
}

fn signer() -> UserId {
    UserId::new("signer")
}

/// A fixed instant inside ISO week 2026-W24 (Mon 2026-06-08 .. Sun 2026-06-14).
fn now() -> Timestamp {
    let t: jiff::Timestamp = "2026-06-10T12:00:00Z".parse().unwrap();
    Timestamp::new(t.as_second(), t.subsec_nanosecond()).unwrap()
}

#[test]
fn new_report_starts_as_draft() {
    assert!(matches!(draft().status(), ReviewStatus::Draft));
}

#[test]
fn happy_path_draft_submit_sign() {
    let mut r = draft();
    r.submit(now()).unwrap();
    assert!(matches!(r.status(), ReviewStatus::Submitted { .. }));
    r.sign(signer(), now()).unwrap();
    match r.status() {
        ReviewStatus::Signed { by, .. } => assert_eq!(by.as_str(), "signer"),
        other => panic!("expected Signed, got {other:?}"),
    }
}

#[test]
fn reject_revise_resubmit_sign_loop() {
    let mut r = draft();
    r.submit(now()).unwrap();
    r.reject("needs more detail".to_owned(), now()).unwrap();
    match r.status() {
        ReviewStatus::Rejected { reason, .. } => assert_eq!(reason, "needs more detail"),
        other => panic!("expected Rejected, got {other:?}"),
    }

    r.revise("# Week 1\n\nDid things, in detail.".to_owned())
        .unwrap();
    assert!(matches!(r.status(), ReviewStatus::Draft));
    r.submit(now()).unwrap();
    r.sign(signer(), now()).unwrap();
    assert!(matches!(r.status(), ReviewStatus::Signed { .. }));
}

#[test]
fn can_resubmit_directly_from_rejected() {
    let mut r = draft();
    r.submit(now()).unwrap();
    r.reject("redo".to_owned(), now()).unwrap();
    r.submit(now()).unwrap();
    assert!(matches!(r.status(), ReviewStatus::Submitted { .. }));
}

#[test]
fn cannot_submit_empty_content() {
    let mut r = Report::new(
        ReportId::new("r1"),
        UserId::new("t"),
        DepartmentId::new("blue"),
        IsoWeek::new(2026, 24).unwrap(),
        "   \n  ".to_owned(),
    );
    assert!(matches!(r.submit(now()), Err(DomainError::Invalid(_))));
}

fn draft_for(week: IsoWeek) -> Report {
    Report::new(
        ReportId::new("r1"),
        UserId::new("trainee"),
        DepartmentId::new("blue"),
        week,
        "# Week\n\nDid things.".to_owned(),
    )
}

#[test]
fn cannot_submit_a_future_week() {
    let mut r = draft_for(IsoWeek::new(2026, 25).unwrap());
    assert!(matches!(r.submit(now()), Err(DomainError::Invalid(_))));
    assert!(matches!(r.status(), ReviewStatus::Draft));
}

#[test]
fn can_submit_the_current_week() {
    let mut r = draft_for(IsoWeek::new(2026, 24).unwrap());
    r.submit(now()).unwrap();
    assert!(matches!(r.status(), ReviewStatus::Submitted { .. }));
}

#[test]
fn can_submit_a_past_week() {
    let mut r = draft_for(IsoWeek::new(2026, 23).unwrap());
    r.submit(now()).unwrap();
    assert!(matches!(r.status(), ReviewStatus::Submitted { .. }));
}

#[test]
fn cannot_resubmit_a_future_week_after_rejection() {
    let mut r = Report::from_parts(
        ReportId::new("r1"),
        UserId::new("trainee"),
        DepartmentId::new("blue"),
        IsoWeek::new(2026, 25).unwrap(),
        "# next week".to_owned(),
        ReviewStatus::Rejected {
            at: now(),
            reason: "redo".to_owned(),
        },
    );
    assert!(matches!(r.submit(now()), Err(DomainError::Invalid(_))));
    assert!(matches!(r.status(), ReviewStatus::Rejected { .. }));
}

#[test]
fn cannot_reject_without_a_reason() {
    let mut r = draft();
    r.submit(now()).unwrap();
    assert!(matches!(
        r.reject("   ".to_owned(), now()),
        Err(DomainError::Invalid(_))
    ));
}

#[test]
fn cannot_submit_twice() {
    let mut r = draft();
    r.submit(now()).unwrap();
    assert!(matches!(r.submit(now()), Err(DomainError::Invalid(_))));
}

#[test]
fn cannot_sign_a_draft() {
    let mut r = draft();
    assert!(matches!(r.sign(signer(), now()), Err(DomainError::Invalid(_))));
}

#[test]
fn cannot_sign_twice() {
    let mut r = draft();
    r.submit(now()).unwrap();
    r.sign(signer(), now()).unwrap();
    assert!(matches!(r.sign(signer(), now()), Err(DomainError::Invalid(_))));
}

#[test]
fn cannot_reject_a_draft() {
    let mut r = draft();
    assert!(matches!(
        r.reject("no".to_owned(), now()),
        Err(DomainError::Invalid(_))
    ));
}

#[test]
fn can_revise_a_submitted_report() {
    let mut r = draft();
    r.submit(now()).unwrap();
    assert!(matches!(r.revise("x".to_owned()), Ok(())));
}

#[test]
fn cannot_revise_a_signed_report() {
    let mut r = draft();
    r.submit(now()).unwrap();
    r.sign(signer(), now()).unwrap();
    assert!(matches!(
        r.revise("x".to_owned()),
        Err(DomainError::Invalid(_))
    ));
}

#[test]
fn review_decision_dispatches_to_sign_and_reject() {
    let mut r = draft();
    r.submit(now()).unwrap();
    r.review(
        signer(),
        ReviewDecision::Reject {
            reason: "fix typos".to_owned(),
        },
        now(),
    )
    .unwrap();
    assert!(matches!(r.status(), ReviewStatus::Rejected { .. }));

    r.revise("fixed".to_owned()).unwrap();
    r.submit(now()).unwrap();
    r.review(signer(), ReviewDecision::Sign, now()).unwrap();
    assert!(matches!(r.status(), ReviewStatus::Signed { .. }));
}

#[test]
fn a_failed_transition_leaves_the_report_unchanged() {
    let mut r = draft();
    r.submit(now()).unwrap();
    r.sign(signer(), now()).unwrap();
    assert!(r.reject("late".to_owned(), now()).is_err());
    assert!(r.submit(now()).is_err());
    assert!(matches!(r.status(), ReviewStatus::Signed { .. }));
    assert_eq!(r.content(), "# Week 1\n\nDid things.");
    assert_eq!(r.id().as_str(), "r1");
}

#[test]
fn timestamps_render_in_rfc3339() {
    assert_eq!(now().to_string(), "2026-06-10T12:00:00Z");
    assert_eq!(IsoWeek::from_timestamp_utc(now()), IsoWeek::new(2026, 24).unwrap());
}
