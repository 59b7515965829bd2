use relatum::errors::DomainError;
use relatum::ports::status::PortStatus;
use relatum::services::meta::{ReadinessAction, ReadinessFlow};

/// Run a readiness check against stores reporting these statuses, in the order
/// users, sessions, reports; also return how many stores were probed.
fn readiness(statuses: [fn() -> PortStatus; 3]) -> (Result<(), DomainError>, usize) {
    let (mut flow, mut action) = ReadinessFlow::start();
    let mut probed = 0;
    loop {
        let status = match action {
            ReadinessAction::ProbeUsers => statuses[0](),
            ReadinessAction::ProbeSessions => statuses[1](),
            ReadinessAction::ProbeReports => statuses[2](),
            ReadinessAction::Finish(result) => return (result, probed),
        };
        probed += 1;
        (flow, action) = flow.step(status);
    }
}

fn healthy() -> PortStatus {
    PortStatus::Healthy
}

#[test]
fn readiness_ok_when_all_backends_healthy() {
    assert!(readiness([healthy, healthy, healthy]).0.is_ok());
}

#[test]
fn readiness_fails_when_a_backend_is_unhealthy() {
    let (result, probed) =
        readiness([healthy, || PortStatus::Unhealthy { reason: "boom".to_string() }, healthy]);
    match result {
        Err(DomainError::Backend(m)) => assert_eq!(m, "Backend is unhealthy: boom"),
        other => panic!("expected a backend error, got {other:?}"),
    }
    assert_eq!(probed, 2);
}

#[test]
fn readiness_fails_when_a_backend_is_not_connected() {
    let (result, probed) = readiness([healthy, healthy, || PortStatus::NotConnected]);
    match result {
        Err(DomainError::Backend(m)) => assert_eq!(m, "Could not connect to backend"),
        other => panic!("expected a backend error, got {other:?}"),
    }
    assert_eq!(probed, 3);
}

#[test]
fn readiness_stops_at_the_first_failing_store() {
    let (result, probed) = readiness([|| PortStatus::NotConnected, healthy, healthy]);
    assert!(matches!(result, Err(DomainError::Backend(_))));
    assert_eq!(probed, 1);
}
