use relatum::api::dtos::{SetSignatureRequest, SignatureFormatDto};
use relatum::api::error::ApiError;
use relatum::api::extract::{bearer_token, AuthorizationHeader};
use relatum::api::gates::{require_author_or_signer, require_instructor};
use relatum::errors::DomainError;
use relatum::export::style::Style;
use relatum::models::ids::{DepartmentId, ReportId, UserId};
use relatum::models::report::Report;
use relatum::models::users::{DirectoryMarker, Role, User};
use relatum::models::week::IsoWeek;
use relatum::services::report::{
    authoring_department, authorize_view, require_signature, require_signer_for, role_of,
};

fn user(marker: DirectoryMarker, department: Option<&str>) -> User {
    User::new(UserId::new("u1"), "ursula".to_string(), marker, department.map(DepartmentId::new))
}

fn forbidden_text(r: Result<(), ApiError>) -> String {
    match r {
        Err(ApiError::Forbidden(m)) => m,
        other => panic!("expected a refusal, got {other:?}"),
    }
}

fn unauthorized_text(header: AuthorizationHeader) -> String {
    match bearer_token(header) {
        Err(ApiError::Unauthorized(m)) => m,
        other => panic!("expected a refusal, got {other:?}"),
    }
}

fn report_in(department: &str) -> Report {
    Report::new(
        ReportId::new("r1"),
        UserId::new("t1"),
        DepartmentId::new(department),
        IsoWeek::new(2026, 24).unwrap(),
        "body".to_string(),
    )
}

#[test]
fn role_gates_say_why_they_refuse() {
    assert_eq!(
        forbidden_text(require_instructor(&user(DirectoryMarker::Regular, Some("blue")))),
        "only instructors may administer users"
    );
    assert_eq!(
        forbidden_text(require_author_or_signer(&user(DirectoryMarker::Trainee, None))),
        "assign a department before registering a signature"
    );
    assert_eq!(
        forbidden_text(require_author_or_signer(&user(DirectoryMarker::Instructor, Some("blue")))),
        "instructors do not author or sign reports, so cannot register a signature"
    );
}

#[test]
fn bearer_refusals_name_what_was_wrong() {
    assert_eq!(unauthorized_text(AuthorizationHeader::Absent), "missing Authorization header");
    assert_eq!(
        unauthorized_text(AuthorizationHeader::Unreadable),
        "malformed Authorization header"
    );
    assert_eq!(
        unauthorized_text(AuthorizationHeader::Text("Basic abc")),
        "expected a Bearer token"
    );
}

#[test]
fn report_service_refusals_name_what_was_wrong() {
    match role_of(Some(user(DirectoryMarker::Trainee, None)), &UserId::new("u1")) {
        Err(DomainError::Forbidden(m)) => assert_eq!(m, "you have no department assigned"),
        other => panic!("expected a refusal, got {other:?}"),
    }
    match authoring_department(Role::Instructor { department: DepartmentId::new("blue") }) {
        Err(DomainError::Forbidden(m)) => assert_eq!(m, "only a trainee may author a report"),
        other => panic!("expected a refusal, got {other:?}"),
    }
    match require_signature(None) {
        Err(DomainError::Precondition(m)) => {
            assert_eq!(m, "register a signature before submitting or signing a report")
        }
        other => panic!("expected a refusal, got {other:?}"),
    }
    let report = report_in("blue");
    match require_signer_for(&Role::Signer { department: DepartmentId::new("red") }, &report) {
        Err(DomainError::Forbidden(m)) => {
            assert_eq!(m, "only a signer in this report's department may sign or reject it")
        }
        other => panic!("expected a refusal, got {other:?}"),
    }
    match authorize_view(&Role::Trainee { department: DepartmentId::new("blue") }, &report) {
        Err(DomainError::Forbidden(m)) => assert_eq!(m, "you may not view this report"),
        other => panic!("expected a refusal, got {other:?}"),
    }
}

#[test]
fn signature_payload_refusals_name_what_was_wrong() {
    let not_base64 = SetSignatureRequest {
        format: SignatureFormatDto::Png,
        data_base64: "%%%".to_string(),
    };
    match not_base64.signature() {
        Err(ApiError::BadRequest(m)) => {
            assert!(m.starts_with("signature data_base64 is not valid base64: "))
        }
        other => panic!("expected a refusal, got {other:?}"),
    }
    let not_png = SetSignatureRequest {
        format: SignatureFormatDto::Png,
        data_base64: "bm90IGEgcG5n".to_string(),
    };
    match not_png.signature() {
        Err(ApiError::BadRequest(m)) => assert_eq!(m, "signature image is not a valid PNG"),
        other => panic!("expected a refusal, got {other:?}"),
    }
}

#[test]
fn ending_a_session_forgets_the_token_and_names_it_once() {
    let mut client = relatum::client::Client::with_token(
        "http://localhost:8080".to_string(),
        Some("abc".to_string()),
    );
    assert_eq!(client.end_session(), Some("Bearer abc".to_string()));
    assert!(!client.is_authenticated());
    assert_eq!(client.end_session(), None);
    assert_eq!(client.base_url(), "http://localhost:8080");
}

#[test]
fn each_face_names_its_font_program() {
    assert_eq!(Style::Regular.font_name(), "DejaVuSans");
    assert_eq!(Style::Bold.font_name(), "DejaVuSans-Bold");
    assert_eq!(Style::Italic.font_name(), "DejaVuSans-Oblique");
    assert_eq!(Style::BoldItalic.font_name(), "DejaVuSans-BoldOblique");
    assert_eq!(Style::Mono.font_name(), "DejaVuSansMono");
}
