//! Data-transfer objects: the shapes that cross the API boundary as JSON.
//!
//! They are separate from the domain models on purpose: the wire format can
//! evolve without touching business types. Each DTO is built from its domain
//! counterpart at the handler boundary. Timestamps travel as RFC 3339 text and
//! signature images as standard base64.

use base64::Engine;
use vstd::prelude::*;

use crate::api::error::ApiError;
use crate::models::auth::{Credentials, SessionToken};
use crate::models::ids::ReportId;
use crate::models::meta::ServiceInfo;
use crate::models::report::{Report, ReviewDecision, ReviewStatus, StatusView};
use crate::models::signature::{Signature, SignatureFormat, StoredSignature};
use crate::models::time::rfc3339_text;
use crate::models::users::{opt_department_view, DirectoryMarker, Role, User};
use crate::models::week::iso_week_text;
use crate::ports::sso_connector::SsoMetadata;

verus! {

// ---- authentication ----

/// Credentials posted to the login endpoint: the SSO access token issued by
/// the external identity provider.
#[derive(Debug)]
pub struct LoginRequest {
    pub token: String,
}

impl From<LoginRequest> for Credentials {
    fn from(value: LoginRequest) -> (r: Credentials) {
        Credentials { token: value.token }
    }
}

impl vstd::std_specs::convert::FromSpecImpl<LoginRequest> for Credentials {
    open spec fn obeys_from_spec() -> bool {
        true
    }

    open spec fn from_spec(v: LoginRequest) -> Credentials {
        Credentials { token: v.token }
    }
}

/// Body for redeeming a single-use SSO handoff code for a session token.
#[derive(Debug)]
pub struct SsoExchangeRequest {
    pub code: String,
}

/// A session token wrapper: only the token's value crosses the wire.
#[derive(Debug)]
pub struct Token {
    pub token: String,
}

impl From<SessionToken> for Token {
    fn from(token: SessionToken) -> (r: Token) {
        Token { token: token.value }
    }
}

impl vstd::std_specs::convert::FromSpecImpl<SessionToken> for Token {
    open spec fn obeys_from_spec() -> bool {
        true
    }

    open spec fn from_spec(v: SessionToken) -> Token {
        Token { token: v.value }
    }
}

/// What the client needs to know to offer SSO login.
#[derive(Debug)]
pub struct SsoInfo {
    /// Whether SSO login is available on this server.
    pub enabled: bool,
    /// Absolute URL of the SSO start endpoint, present when `enabled`.
    pub login_url: Option<String>,
}

impl From<SsoMetadata> for SsoInfo {
    fn from(meta: SsoMetadata) -> (r: SsoInfo) {
        SsoInfo { enabled: meta.enabled, login_url: meta.login_url }
    }
}

impl vstd::std_specs::convert::FromSpecImpl<SsoMetadata> for SsoInfo {
    open spec fn obeys_from_spec() -> bool {
        true
    }

    open spec fn from_spec(v: SsoMetadata) -> SsoInfo {
        SsoInfo { enabled: v.enabled, login_url: v.login_url }
    }
}

/// Response to a successful authentication: the session token.
#[derive(Debug)]
pub struct AuthSuccess {
    pub token: Token,
}

impl From<SessionToken> for AuthSuccess {
    fn from(token: SessionToken) -> (r: AuthSuccess) {
        AuthSuccess { token: Token { token: token.value } }
    }
}

impl vstd::std_specs::convert::FromSpecImpl<SessionToken> for AuthSuccess {
    open spec fn obeys_from_spec() -> bool {
        true
    }

    open spec fn from_spec(v: SessionToken) -> AuthSuccess {
        AuthSuccess { token: Token { token: v.value } }
    }
}

// ---- service metadata ----

/// Basic metadata about the running API.
#[derive(Debug)]
pub struct ApiInfo {
    /// Service name, e.g. `"relatum"`.
    pub name: String,
    /// Semantic version of the service.
    pub version: String,
}

impl From<ServiceInfo> for ApiInfo {
    fn from(info: ServiceInfo) -> (r: ApiInfo) {
        ApiInfo { name: info.name, version: info.version }
    }
}

impl vstd::std_specs::convert::FromSpecImpl<ServiceInfo> for ApiInfo {
    open spec fn obeys_from_spec() -> bool {
        true
    }

    open spec fn from_spec(v: ServiceInfo) -> ApiInfo {
        ApiInfo { name: v.name, version: v.version }
    }
}

// ---- reports ----

/// Where a report sits in the review cycle. Timestamps are RFC 3339 text.
#[derive(Debug)]
pub enum ReviewStatusDto {
    Draft,
    Submitted { at: String },
    /// Signed by a signer; `by` is the signer's id.
    Signed { at: String, by: String },
    Rejected { at: String, reason: String },
}

/// Whether `dto` is the wire form of `status`.
pub open spec fn status_dto_of(dto: ReviewStatusDto, status: StatusView) -> bool {
    match (status, dto) {
        (StatusView::Draft, ReviewStatusDto::Draft) => true,
        (StatusView::Submitted { at }, ReviewStatusDto::Submitted { at: a }) => a@
            == rfc3339_text(at.second(), at.nanosecond()),
        (StatusView::Signed { at, by }, ReviewStatusDto::Signed { at: a, by: b }) => a@
            == rfc3339_text(at.second(), at.nanosecond()) && b@ == by,
        (StatusView::Rejected { at, reason }, ReviewStatusDto::Rejected { at: a, reason: r }) => a@
            == rfc3339_text(at.second(), at.nanosecond()) && r@ == reason,
        _ => false,
    }
}

impl ReviewStatusDto {
    /// The wire form of a report's status.
    pub fn from_status(status: &ReviewStatus) -> (r: ReviewStatusDto)
        ensures
            status_dto_of(r, status@),
    {
        match status {
            ReviewStatus::Draft => ReviewStatusDto::Draft,
            ReviewStatus::Submitted { at } => ReviewStatusDto::Submitted { at: at.to_string() },
            ReviewStatus::Signed { at, by } => ReviewStatusDto::Signed {
                at: at.to_string(),
                by: String::from_str(by.as_str()),
            },
            ReviewStatus::Rejected { at, reason } => ReviewStatusDto::Rejected {
                at: at.to_string(),
                reason: reason.clone(),
            },
        }
    }
}

/// A report as returned to clients.
#[derive(Debug)]
pub struct ReportView {
    pub id: String,
    /// The trainee who wrote the report.
    pub author: String,
    /// The department whose queue the report belongs to.
    pub department: String,
    /// The ISO week the report covers, e.g. `2026-W24`.
    pub week: String,
    /// The report body, as markdown.
    pub content: String,
    pub status: ReviewStatusDto,
}

impl ReportView {
    /// The wire form of a report.
    pub fn from_report(report: &Report) -> (r: ReportView)
        ensures
            r.id@ == report@.id,
            r.author@ == report@.author,
            r.department@ == report@.department,
            r.week@ == iso_week_text(report@.week.year_spec(), report@.week.week_spec()),
            r.content@ == report@.content,
            status_dto_of(r.status, report@.status),
    {
        ReportView {
            id: String::from_str(report.id().as_str()),
            author: String::from_str(report.author().as_str()),
            department: String::from_str(report.department().as_str()),
            week: report.week().to_string(),
            content: String::from_str(report.content()),
            status: ReviewStatusDto::from_status(report.status()),
        }
    }
}

/// Body for starting a new draft report.
#[derive(Debug)]
pub struct CreateReportRequest {
    /// The ISO week the report covers, e.g. `2026-W24`.
    pub week: String,
    /// The report body, as markdown.
    pub content: String,
}

/// Body for replacing a draft/rejected report's markdown.
#[derive(Debug)]
pub struct ReviseReportRequest {
    pub content: String,
}

/// A signer's verdict on a submitted report.
#[derive(Debug)]
pub enum ReviewDecisionDto {
    Sign,
    Reject { reason: String },
}

impl From<ReviewDecisionDto> for ReviewDecision {
    fn from(decision: ReviewDecisionDto) -> (r: ReviewDecision) {
        match decision {
            ReviewDecisionDto::Sign => ReviewDecision::Sign,
            ReviewDecisionDto::Reject { reason } => ReviewDecision::Reject { reason },
        }
    }
}

impl vstd::std_specs::convert::FromSpecImpl<ReviewDecisionDto> for ReviewDecision {
    open spec fn obeys_from_spec() -> bool {
        true
    }

    open spec fn from_spec(v: ReviewDecisionDto) -> ReviewDecision {
        match v {
            ReviewDecisionDto::Sign => ReviewDecision::Sign,
            ReviewDecisionDto::Reject { reason } => ReviewDecision::Reject { reason },
        }
    }
}

/// Body posted to the review endpoint.
#[derive(Debug)]
pub struct ReviewRequest {
    pub decision: ReviewDecisionDto,
}

/// Response to creating a draft: the fresh report's id.
#[derive(Debug)]
pub struct CreatedReport {
    pub id: String,
}

impl CreatedReport {
    /// The response naming a freshly created report.
    pub fn from_id(id: &ReportId) -> (r: CreatedReport)
        ensures
            r.id@ == id@,
    {
        CreatedReport { id: String::from_str(id.as_str()) }
    }
}

// ---- signatures ----

/// The image format of a signature, on the wire.
#[derive(Debug, Clone, Copy, PartialEq, Eq, Structural)]
pub enum SignatureFormatDto {
    Png,
}

impl From<SignatureFormat> for SignatureFormatDto {
    fn from(format: SignatureFormat) -> (r: SignatureFormatDto) {
        match format {
            SignatureFormat::Png => SignatureFormatDto::Png,
        }
    }
}

impl vstd::std_specs::convert::FromSpecImpl<SignatureFormat> for SignatureFormatDto {
    open spec fn obeys_from_spec() -> bool {
        true
    }

    open spec fn from_spec(v: SignatureFormat) -> SignatureFormatDto {
        match v {
            SignatureFormat::Png => SignatureFormatDto::Png,
        }
    }
}

impl From<SignatureFormatDto> for SignatureFormat {
    fn from(format: SignatureFormatDto) -> (r: SignatureFormat) {
        match format {
            SignatureFormatDto::Png => SignatureFormat::Png,
        }
    }
}

impl vstd::std_specs::convert::FromSpecImpl<SignatureFormatDto> for SignatureFormat {
    open spec fn obeys_from_spec() -> bool {
        true
    }

    open spec fn from_spec(v: SignatureFormatDto) -> SignatureFormat {
        match v {
            SignatureFormatDto::Png => SignatureFormat::Png,
        }
    }
}

/// The format a wire format names.
pub open spec fn format_of(dto: SignatureFormatDto) -> SignatureFormat {
    match dto {
        SignatureFormatDto::Png => SignatureFormat::Png,
    }
}

/// The bytes `text` decodes to as standard base64, or `None` when it is not
/// valid standard base64, as the `base64` crate decides.
pub uninterp spec fn base64_decoded(text: Seq<char>) -> Option<Seq<u8>>;

/// The standard base64 text of `bytes`, as the `base64` crate encodes it.
pub uninterp spec fn base64_text(bytes: Seq<u8>) -> Seq<char>;

/// `base64::DecodeError`, the failure of decoding base64 text.
#[verifier::external_type_specification]
#[verifier::external_body]
pub struct ExDecodeError(base64::DecodeError);

/// Decodes standard base64 with `base64::engine::general_purpose::STANDARD`.
///
/// Claimed: success and the decoded bytes depend on the text alone (named
/// `base64_decoded`). What the error says is left unstated.
#[verifier::external_body]
fn decode_base64(text: &str) -> (r: Result<Vec<u8>, base64::DecodeError>)
    ensures
        r is Ok <==> base64_decoded(text@) is Some,
        r matches Ok(bytes) ==> Some(bytes@) == base64_decoded(text@),
{
    base64::engine::general_purpose::STANDARD.decode(text.as_bytes())
}

/// Encodes bytes as standard base64 with
/// `base64::engine::general_purpose::STANDARD`.
///
/// Claimed: the text depends on the bytes alone (named `base64_text`).
#[verifier::external_body]
fn encode_base64(bytes: &[u8]) -> (r: String)
    ensures
        r@ == base64_text(bytes@),
{
    base64::engine::general_purpose::STANDARD.encode(bytes)
}

/// The `Display` text of a base64 decoding error.
#[verifier::external_body]
fn decode_error_text(err: &base64::DecodeError) -> String {
    err.to_string()
}

/// Body for setting (or replacing) the caller's own signature.
#[derive(Debug)]
pub struct SetSignatureRequest {
    /// The image format of the encoded bytes.
    pub format: SignatureFormatDto,
    /// Standard-base64 of the raw image bytes.
    pub data_base64: String,
}

impl SetSignatureRequest {
    /// The upload body for a raw image: its format, and its bytes as standard
    /// base64.
    pub fn for_image(format: SignatureFormatDto, image: &[u8]) -> (r: SetSignatureRequest)
        ensures
            r.format == format,
            r.data_base64@ == base64_text(image@),
    {
        SetSignatureRequest { format, data_base64: encode_base64(image) }
    }

    /// Decode the base64 payload into raw image bytes.
    pub fn decode(&self) -> (r: Result<Vec<u8>, base64::DecodeError>)
        ensures
            r is Ok <==> base64_decoded(self.data_base64@) is Some,
            r matches Ok(bytes) ==> Some(bytes@) == base64_decoded(self.data_base64@),
    {
        decode_base64(self.data_base64.as_str())
    }

    /// The signature the request carries: its payload must be valid base64
    /// ([`ApiError::BadRequest`] otherwise) of an image the domain accepts
    /// (also a bad request otherwise).
    pub fn signature(&self) -> (r: Result<Signature, ApiError>)
        ensures
            match base64_decoded(self.data_base64@) {
                None => r matches Err(e) && e is BadRequest
                    && "signature data_base64 is not valid base64: "@.is_prefix_of(e.detail()),
                Some(bytes) => if crate::models::signature::acceptable_signature(
                    format_of(self.format),
                    bytes,
                ) {
                    r matches Ok(s) && s.format_spec() == format_of(self.format) && s.bytes_spec()
                        == bytes
                } else {
                    r matches Err(e) && e is BadRequest && e.detail()
                        == crate::models::signature::signature_refusal(bytes)
                },
            },
    {
        match self.decode() {
            Err(e) => {
                let mut message = String::from_str("signature data_base64 is not valid base64: ");
                let detail = decode_error_text(&e);
                message.append(detail.as_str());
                Err(ApiError::BadRequest(message))
            },
            Ok(bytes) => {
                let format = match self.format {
                    SignatureFormatDto::Png => SignatureFormat::Png,
                };
                match Signature::new(format, bytes) {
                    Ok(s) => Ok(s),
                    Err(e) => Err(ApiError::from(e)),
                }
            },
        }
    }
}

/// The caller's stored signature.
#[derive(Debug)]
pub struct SignatureView {
    /// The image format.
    pub format: SignatureFormatDto,
    /// Standard-base64 of the raw image bytes.
    pub data_base64: String,
    /// When the signature was last set, RFC 3339.
    pub updated_at: String,
}

impl SignatureView {
    /// The wire form of a stored signature.
    pub fn from_stored(stored: &StoredSignature) -> (r: SignatureView)
        ensures
            format_of(r.format) == stored.signature.format_spec(),
            r.data_base64@ == base64_text(stored.signature.bytes_spec()),
            r.updated_at@ == rfc3339_text(stored.updated_at.second(), stored.updated_at.nanosecond()),
    {
        let format = match stored.signature.format() {
            SignatureFormat::Png => SignatureFormatDto::Png,
        };
        SignatureView {
            format,
            data_base64: encode_base64(stored.signature.bytes()),
            updated_at: stored.updated_at.to_string(),
        }
    }
}

// ---- users ----

/// Body for assigning a user to a department.
#[derive(Debug)]
pub struct AssignDepartmentRequest {
    pub department: String,
}

/// What the directory's group membership marks a user as, on the wire.
#[derive(Debug, Clone, Copy, PartialEq, Eq, Structural)]
pub enum MarkerDto {
    Instructor,
    Trainee,
    Regular,
}

/// The wire form of a marker.
pub open spec fn marker_dto_of(marker: DirectoryMarker) -> MarkerDto {
    match marker {
        DirectoryMarker::Instructor => MarkerDto::Instructor,
        DirectoryMarker::Trainee => MarkerDto::Trainee,
        DirectoryMarker::Regular => MarkerDto::Regular,
    }
}

impl MarkerDto {
    /// The wire form of a marker.
    pub fn from_marker(marker: &DirectoryMarker) -> (r: MarkerDto)
        ensures
            r == marker_dto_of(*marker),
    {
        match marker {
            DirectoryMarker::Instructor => MarkerDto::Instructor,
            DirectoryMarker::Trainee => MarkerDto::Trainee,
            DirectoryMarker::Regular => MarkerDto::Regular,
        }
    }
}

/// A user's effective role on the wire, with the department it is scoped to.
#[derive(Debug)]
pub enum RoleDto {
    Instructor { department: String },
    Trainee { department: String },
    Signer { department: String },
}

/// Whether `dto` is the wire form of `role`.
pub open spec fn role_dto_of(dto: RoleDto, role: Role) -> bool {
    match (role, dto) {
        (Role::Instructor { department }, RoleDto::Instructor { department: d }) => d@
            == department@,
        (Role::Trainee { department }, RoleDto::Trainee { department: d }) => d@ == department@,
        (Role::Signer { department }, RoleDto::Signer { department: d }) => d@ == department@,
        _ => false,
    }
}

/// Whether `dto` is the wire form of the effective role of a user with
/// `marker` and `department`.
pub open spec fn user_role_dto(
    dto: Option<RoleDto>,
    marker: DirectoryMarker,
    department: Option<Seq<char>>,
) -> bool {
    match (department, dto) {
        (None, None) => true,
        (Some(d), Some(RoleDto::Instructor { department })) => marker
            == DirectoryMarker::Instructor && department@ == d,
        (Some(d), Some(RoleDto::Trainee { department })) => marker == DirectoryMarker::Trainee
            && department@ == d,
        (Some(d), Some(RoleDto::Signer { department })) => marker == DirectoryMarker::Regular
            && department@ == d,
        _ => false,
    }
}

impl RoleDto {
    /// The wire form of a role.
    pub fn from_role(role: &Role) -> (r: RoleDto)
        ensures
            role_dto_of(r, *role),
    {
        let department = String::from_str(role.department().as_str());
        match role {
            Role::Instructor { .. } => RoleDto::Instructor { department },
            Role::Trainee { .. } => RoleDto::Trainee { department },
            Role::Signer { .. } => RoleDto::Signer { department },
        }
    }
}

/// The wire form of a user's role.
fn role_dto_for(user: &User) -> (r: Option<RoleDto>)
    ensures
        user_role_dto(r, user@.marker, user@.department),
{
    let role = user.role();
    match &role {
        Some(role) => Some(RoleDto::from_role(role)),
        None => None,
    }
}

/// The authenticated caller's own identity and effective role (`None` while
/// the user is inert).
#[derive(Debug)]
pub struct MeView {
    pub id: String,
    pub role: Option<RoleDto>,
}

impl MeView {
    /// The caller's identity and role.
    pub fn from_user(user: &User) -> (r: MeView)
        ensures
            r.id@ == user@.id,
            user_role_dto(r.role, user@.marker, user@.department),
    {
        MeView { id: String::from_str(user.id().as_str()), role: role_dto_for(user) }
    }
}

/// A single user as listed for the instructor's administration view.
#[derive(Debug)]
pub struct UserSummary {
    pub id: String,
    pub username: String,
    /// What the directory marks this user as, independent of any department.
    pub marker: MarkerDto,
    /// The department this user is assigned to, or `None` if inert.
    pub department: Option<String>,
    /// The user's effective role, or `None` while they have no department.
    pub role: Option<RoleDto>,
}

/// The view of an optional text.
pub open spec fn opt_text(s: Option<String>) -> Option<Seq<char>> {
    match s {
        Some(s) => Some(s@),
        None => None,
    }
}

impl UserSummary {
    /// The listing entry of a user.
    pub fn from_user(user: &User) -> (r: UserSummary)
        ensures
            r.id@ == user@.id,
            r.username@ == user@.username,
            r.marker == marker_dto_of(user@.marker),
            opt_text(r.department) == user@.department,
            user_role_dto(r.role, user@.marker, user@.department),
    {
        UserSummary {
            id: String::from_str(user.id().as_str()),
            username: String::from_str(user.username()),
            marker: MarkerDto::from_marker(user.marker()),
            department: match user.department() {
                Some(d) => Some(String::from_str(d.as_str())),
                None => None,
            },
            role: role_dto_for(user),
        }
    }
}

} // verus!
