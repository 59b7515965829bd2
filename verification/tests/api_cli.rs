use relatum::api::dtos::{
    MarkerDto, MeView, ReportView, ReviewStatusDto, RoleDto, SetSignatureRequest,
    SignatureFormatDto, SignatureView, SsoInfo, UserSummary,
};
use relatum::api::error::{ApiError, ErrorResponse};
use relatum::api::extract::{bearer_token, AuthorizationHeader};
use relatum::api::gates::{require_author_or_signer, require_instructor};
use relatum::api::sso::{callback_target, is_probe, StartQuery};
use relatum::cli::input::{content_source, export_target, ContentSource, ExportTarget};
use relatum::cli::output::{me_text, reports_text, sso_text, users_text};
use relatum::cli::token::token_from_stored;
use relatum::client::{export_failure, probe_failure, signature_lookup, Client, ClientError};
use relatum::errors::DomainError;
use relatum::models::ids::{DepartmentId, ReportId, UserId};
use relatum::models::report::{Report, ReviewStatus};
use relatum::models::signature::StoredSignature;
use relatum::models::time::Timestamp;
use relatum::models::week::IsoWeek;
use relatum::models::users::{DirectoryMarker, User};

#[test]
fn api_errors_carry_status_code_and_text() {
    let e = ApiError::NotFound("report r1".to_string());
    assert_eq!(e.status(), 404);
    assert_eq!(e.code(), "not_found");
    assert_eq!(e.to_string(), "not found: report r1");
    let body = ErrorResponse::from_error(&ApiError::PreconditionRequired("sign first".to_string()));
    assert_eq!(body.status, 428);
    assert_eq!(body.code, "precondition_required");
    assert_eq!(body.message, "precondition required: sign first");
}

#[test]
fn domain_errors_map_onto_api_errors() {
    let cases = vec![
        (DomainError::NotFound("a".to_string()), 404, "not_found"),
        (DomainError::Invalid("a".to_string()), 400, "bad_request"),
        (DomainError::Unauthorized("a".to_string()), 401, "unauthorized"),
        (DomainError::Forbidden("a".to_string()), 403, "forbidden"),
        (DomainError::Conflict("a".to_string()), 409, "conflict"),
        (DomainError::Precondition("a".to_string()), 428, "precondition_required"),
        (DomainError::Backend("a".to_string()), 502, "backend"),
        (DomainError::Internal("a".to_string()), 500, "internal"),
    ];
    for (domain, status, code) in cases {
        let api = ApiError::from(domain);
        assert_eq!(api.status(), status);
        assert_eq!(api.code(), code);
    }
}

#[test]
fn bearer_tokens_are_read_from_the_header() {
    assert_eq!(bearer_token(AuthorizationHeader::Text("Bearer abc ")).unwrap().0, "abc");
    assert!(matches!(
        bearer_token(AuthorizationHeader::Text("Basic abc")),
        Err(ApiError::Unauthorized(_))
    ));
    assert!(matches!(
        bearer_token(AuthorizationHeader::Text("Bearer    ")),
        Err(ApiError::Unauthorized(_))
    ));
    assert!(matches!(bearer_token(AuthorizationHeader::Absent), Err(ApiError::Unauthorized(_))));
    assert!(matches!(
        bearer_token(AuthorizationHeader::Unreadable),
        Err(ApiError::Unauthorized(_))
    ));
}

fn user(marker: DirectoryMarker, department: Option<&str>) -> User {
    User::new(UserId::new("u1"), "ursula".to_string(), marker, department.map(DepartmentId::new))
}

#[test]
fn role_gates_admit_the_right_users() {
    assert!(require_instructor(&user(DirectoryMarker::Instructor, Some("blue"))).is_ok());
    assert!(matches!(
        require_instructor(&user(DirectoryMarker::Regular, Some("blue"))),
        Err(ApiError::Forbidden(_))
    ));
    assert!(require_author_or_signer(&user(DirectoryMarker::Trainee, Some("blue"))).is_ok());
    assert!(require_author_or_signer(&user(DirectoryMarker::Regular, Some("blue"))).is_ok());
    assert!(require_author_or_signer(&user(DirectoryMarker::Instructor, Some("blue"))).is_err());
    assert!(require_author_or_signer(&user(DirectoryMarker::Trainee, None)).is_err());
}

#[test]
fn sso_redirects_carry_state_and_code() {
    let q = StartQuery {
        redirect_uri: "http://127.0.0.1:9000/cb".to_string(),
        state: "nonce".to_string(),
    };
    let app = q.app_redirect();
    assert_eq!(app, "http://127.0.0.1:9000/cb?state=nonce");
    assert_eq!(callback_target(&app, "h1"), "http://127.0.0.1:9000/cb?state=nonce&code=h1");
    assert!(is_probe("/api/v1/healthz"));
    assert!(is_probe("/api/v1/readyz"));
    assert!(!is_probe("/api/v1/reports"));
}

#[test]
fn dtos_describe_users() {
    let u = user(DirectoryMarker::Regular, Some("blue"));
    let me = MeView::from_user(&u);
    assert_eq!(me.id, "u1");
    assert!(matches!(&me.role, Some(RoleDto::Signer { department }) if department == "blue"));
    let summary = UserSummary::from_user(&u);
    assert_eq!(summary.username, "ursula");
    assert!(matches!(summary.marker, MarkerDto::Regular));
    assert_eq!(summary.department.as_deref(), Some("blue"));
    let inert = MeView::from_user(&user(DirectoryMarker::Trainee, None));
    assert!(inert.role.is_none());
}

#[test]
fn cli_renders_identities_and_sso() {
    let me = MeView {
        id: "alice".to_string(),
        role: Some(RoleDto::Trainee { department: "blue".to_string() }),
    };
    assert_eq!(me_text(&me), "id:   alice\nrole: trainee (blue)");
    let none = MeView { id: "bob".to_string(), role: None };
    assert_eq!(me_text(&none), "id:   bob\nrole: none (no department assigned)");
    let sso = SsoInfo { enabled: false, login_url: None };
    assert_eq!(sso_text(&sso), "enabled:   false\nlogin_url: -");
}

#[test]
fn cli_renders_lists() {
    assert_eq!(reports_text(&[]), "(no reports)");
    assert_eq!(users_text(&[]), "(no users)");
    let reports = vec![ReportView {
        id: "r1".to_string(),
        author: "alice".to_string(),
        department: "blue".to_string(),
        week: "2026-W24".to_string(),
        content: "# hi".to_string(),
        status: ReviewStatusDto::Draft,
    }];
    assert_eq!(reports_text(&reports), "r1  draft           alice");
    let users = vec![UserSummary {
        id: "u1".to_string(),
        username: "alice".to_string(),
        marker: MarkerDto::Trainee,
        department: None,
        role: None,
    }];
    assert_eq!(users_text(&users), "alice         trainee     -         inert");
}

#[test]
fn cli_picks_content_and_export_targets() {
    assert!(matches!(
        content_source(Some("text".to_string()), Some("f".to_string())),
        ContentSource::Inline(t) if t == "text"
    ));
    assert!(matches!(content_source(None, Some("-".to_string())), ContentSource::Stdin));
    assert!(matches!(
        content_source(None, Some("body.md".to_string())),
        ContentSource::File(p) if p == "body.md"
    ));
    assert!(matches!(content_source(None, None), ContentSource::Missing));
    assert!(matches!(export_target(Some("-".to_string()), "r1"), ExportTarget::Stdout));
    assert!(matches!(
        export_target(None, "r1"),
        ExportTarget::File(p) if p == "ausbildungsnachweis-r1.pdf"
    ));
    assert!(matches!(
        export_target(Some("out.pdf".to_string()), "r1"),
        ExportTarget::File(p) if p == "out.pdf"
    ));
}

#[test]
fn client_builds_requests_and_maps_failures() {
    let mut client = Client::new("http://srv".to_string());
    assert!(!client.is_authenticated());
    assert!(client.bearer_header().is_none());
    client.set_token(Some("tok".to_string()));
    assert_eq!(client.bearer_header().as_deref(), Some("Bearer tok"));
    assert_eq!(client.export_url("r9"), "http://srv/api/v1/reports/r9/export");
    assert!(matches!(
        export_failure(500, None),
        ClientError::Api { status: 500, code, message }
            if code == "error" && message == "export request failed with status 500"
    ));
    assert!(matches!(
        export_failure(403, Some(("forbidden".to_string(), "no".to_string()))),
        ClientError::Api { status: 403, code, message } if code == "forbidden" && message == "no"
    ));
    assert!(matches!(
        probe_failure(503, "liveness probe failed"),
        ClientError::Api { status: 503, code, .. } if code == "unexpected"
    ));
    let absent: Result<u8, ClientError> = Err(ClientError::Api {
        status: 404,
        code: "not_found".to_string(),
        message: "none".to_string(),
    });
    assert!(matches!(signature_lookup(absent), Ok(None)));
    assert!(matches!(signature_lookup(Ok::<u8, ClientError>(3)), Ok(Some(3))));
    assert!(matches!(
        signature_lookup::<u8>(Err(ClientError::Transport("down".to_string()))),
        Err(ClientError::Transport(_))
    ));
}

#[test]
fn signature_payloads_are_base64_images() {

    let png = vec![0x89, 0x50, 0x4E, 0x47, 0x0D, 0x0A, 0x1A, 0x0A, 0x00, 0x01];
    let ok = SetSignatureRequest {
        format: SignatureFormatDto::Png,
        data_base64: "iVBORw0KGgoAAQ==".to_string(),
    };
    assert_eq!(ok.decode().unwrap(), png);
    let sig = ok.signature().unwrap();
    assert_eq!(sig.bytes(), png.as_slice());

    let built = SetSignatureRequest::for_image(SignatureFormatDto::Png, &png);
    assert_eq!(built.data_base64, "iVBORw0KGgoAAQ==");
    assert!(matches!(built.format, SignatureFormatDto::Png));
    assert_eq!(built.signature().unwrap().bytes(), png.as_slice());

    let not_base64 = SetSignatureRequest {
        format: SignatureFormatDto::Png,
        data_base64: "%%%".to_string(),
    };
    assert!(matches!(not_base64.signature(), Err(ApiError::BadRequest(_))));
    let not_png = SetSignatureRequest {
        format: SignatureFormatDto::Png,
        data_base64: "bm90IGEgcG5n".to_string(),
    };
    assert!(matches!(not_png.signature(), Err(ApiError::BadRequest(_))));

    let stored = StoredSignature {
        signature: sig,
        updated_at: Timestamp::new(1_781_436_600, 0).unwrap(),
    };
    let view = SignatureView::from_stored(&stored);
    assert_eq!(view.data_base64, "iVBORw0KGgoAAQ==");
    assert_eq!(view.updated_at, "2026-06-14T11:30:00Z");
    assert!(matches!(view.format, SignatureFormatDto::Png));
}

#[test]
fn reports_and_statuses_take_their_wire_form() {

    let at = Timestamp::new(1_781_436_600, 0).unwrap();
    let report = Report::from_parts(
        ReportId::new("r7"),
        UserId::new("alice"),
        DepartmentId::new("blue"),
        IsoWeek::new(2026, 4).unwrap(),
        "# w4".to_string(),
        ReviewStatus::Signed { at, by: UserId::new("sam") },
    );
    let view = ReportView::from_report(&report);
    assert_eq!(view.id, "r7");
    assert_eq!(view.week, "2026-W04");
    assert!(matches!(
        &view.status,
        ReviewStatusDto::Signed { at, by } if at == "2026-06-14T11:30:00Z" && by == "sam"
    ));
    assert!(matches!(
        ReviewStatusDto::from_status(&ReviewStatus::Rejected { at, reason: "why".to_string() }),
        ReviewStatusDto::Rejected { reason, .. } if reason == "why"
    ));
}

#[test]
fn stored_passwords_are_trimmed_and_blank_is_none() {
    assert_eq!(token_from_stored("   "), None);
    assert_eq!(token_from_stored(""), None);
    assert_eq!(token_from_stored("  padded  ").as_deref(), Some("padded"));
    assert_eq!(token_from_stored("tok-secret").as_deref(), Some("tok-secret"));
}
