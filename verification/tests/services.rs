use relatum::errors::DomainError;
use relatum::models::department::DepartmentRegistry;
use relatum::models::ids::{DepartmentId, ReportId, UserId};
use relatum::models::report::Report;
use relatum::models::users::{DirectoryMarker, Role, User};
use relatum::models::week::IsoWeek;
use relatum::ports::directory::DirectoryEntry;
use relatum::ports::status::PortStatus;
use relatum::services::admin::UserAdmin;
use relatum::services::meta::check;
use relatum::services::report::{
    authoring_department, authorize_view, ensure_week_free, queue_for, require_signer_for,
    ReportQueue,
};
use relatum::services::sync::{reconcile, Reconcile, SyncPass, SyncSummary};

fn entry(id: &str, marker: DirectoryMarker) -> DirectoryEntry {
    DirectoryEntry { id: UserId::new(id), username: id.to_string(), marker }
}

#[test]
fn reconcile_provisions_new_entries_without_a_department() {
    match reconcile(None, entry("alice", DirectoryMarker::Trainee)) {
        Reconcile::Create(u) => {
            assert_eq!(u.id().as_str(), "alice");
            assert!(u.department().is_none());
            assert!(u.role().is_none());
        }
        other => panic!("expected a new user, got {other:?}"),
    }
}

#[test]
fn reconcile_keeps_a_manually_assigned_department() {
    let stored = User::new(
        UserId::new("alice"),
        "alice".to_string(),
        DirectoryMarker::Regular,
        Some(DepartmentId::new("blue")),
    );
    match reconcile(Some(stored), entry("alice", DirectoryMarker::Trainee)) {
        Reconcile::Update(u) => {
            assert_eq!(u.department().unwrap().as_str(), "blue");
            assert_eq!(*u.marker(), DirectoryMarker::Trainee);
        }
        other => panic!("expected an update, got {other:?}"),
    }
}

#[test]
fn reconcile_leaves_unchanged_entries_alone() {
    let stored = User::new(UserId::new("alice"), "alice".to_string(), DirectoryMarker::Trainee, None);
    assert!(matches!(
        reconcile(Some(stored), entry("alice", DirectoryMarker::Trainee)),
        Reconcile::Unchanged
    ));
}

#[test]
fn a_sync_pass_marks_unlisted_users_stale() {
    let mut pass = SyncPass::start();
    pass.see(&UserId::new("alice"));
    pass.record(&Reconcile::Unchanged);
    let gone = User::new(UserId::new("gone"), "gone".to_string(), DirectoryMarker::Regular, None);
    let alice = User::new(UserId::new("alice"), "alice".to_string(), DirectoryMarker::Trainee, None);
    assert!(pass.is_stale(&gone));
    assert!(!pass.is_stale(&alice));
    pass.record_removed();
    assert_eq!(pass.summary(), SyncSummary { added: 0, updated: 0, removed: 1 });
}

#[test]
fn only_configured_departments_may_be_assigned() {
    let admin = UserAdmin::new((), DepartmentRegistry::new(vec![DepartmentId::new("blue")]));
    assert!(admin.check_department(&DepartmentId::new("blue")).is_ok());
    assert!(matches!(
        admin.check_department(&DepartmentId::new("green")),
        Err(DomainError::Invalid(_))
    ));
    assert!(matches!(
        UserAdmin::<()>::existing(None, &UserId::new("ghost")),
        Err(DomainError::NotFound(_))
    ));
}

#[test]
fn readiness_follows_the_backends() {
    assert!(check(PortStatus::Healthy).is_ok());
    assert!(matches!(check(PortStatus::NotConnected), Err(DomainError::Backend(_))));
    assert!(matches!(
        check(PortStatus::Unhealthy { reason: "boom".to_string() }),
        Err(DomainError::Backend(m)) if m.contains("boom")
    ));
}

fn report(department: &str, week: i8) -> Report {
    Report::new(
        ReportId::new("r1"),
        UserId::new("trainee"),
        DepartmentId::new(department),
        IsoWeek::new(2026, week).unwrap(),
        "# week".to_string(),
    )
}

#[test]
fn only_trainees_author_and_one_report_per_week() {
    let trainee = Role::Trainee { department: DepartmentId::new("blue") };
    assert_eq!(authoring_department(trainee).unwrap().as_str(), "blue");
    assert!(matches!(
        authoring_department(Role::Signer { department: DepartmentId::new("blue") }),
        Err(DomainError::Forbidden(_))
    ));
    let authored = vec![report("blue", 24)];
    assert!(matches!(
        ensure_week_free(&authored, IsoWeek::new(2026, 24).unwrap()),
        Err(DomainError::Conflict(_))
    ));
    assert!(ensure_week_free(&authored, IsoWeek::new(2026, 25).unwrap()).is_ok());
}

#[test]
fn signers_decide_only_in_their_department() {
    let r = report("blue", 24);
    assert!(require_signer_for(&Role::Signer { department: DepartmentId::new("blue") }, &r).is_ok());
    assert!(matches!(
        require_signer_for(&Role::Signer { department: DepartmentId::new("red") }, &r),
        Err(DomainError::Forbidden(_))
    ));
    assert!(require_signer_for(&Role::Instructor { department: DepartmentId::new("blue") }, &r)
        .is_err());
    assert!(authorize_view(&Role::Instructor { department: DepartmentId::new("red") }, &r).is_ok());
    assert!(authorize_view(&Role::Signer { department: DepartmentId::new("red") }, &r).is_err());
}

#[test]
fn queue_for_branches_on_role() {
    let actor = UserId::new("alice");
    assert!(matches!(
        queue_for(Role::Trainee { department: DepartmentId::new("blue") }, &actor),
        ReportQueue::Authored(a) if a.as_str() == "alice"
    ));
    assert!(matches!(
        queue_for(Role::Signer { department: DepartmentId::new("blue") }, &actor),
        ReportQueue::Department(d) if d.as_str() == "blue"
    ));
    assert!(matches!(
        queue_for(Role::Instructor { department: DepartmentId::new("blue") }, &actor),
        ReportQueue::All
    ));
}
