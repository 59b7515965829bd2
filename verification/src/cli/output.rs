//! Rendering of command results as compact human-readable lines.
//!
//! Every command produces either a typed value (rendered as the server's JSON
//! or as the text below) or a bare acknowledgement.

use vstd::prelude::*;

use crate::api::dtos::{ApiInfo, MarkerDto, MeView, ReportView, ReviewStatusDto, RoleDto, SsoInfo, UserSummary};
use crate::textual::{pad_right, push_padded};

verus! {

/// How a command renders its result.
#[derive(Debug, Clone, Copy, PartialEq, Eq, Structural)]
pub enum OutputFormat {
    /// Compact human-readable lines.
    Text,
    /// The server's JSON response, pretty-printed.
    Json,
}

/// `lines` joined with newlines.
pub open spec fn joined(lines: Seq<Seq<char>>) -> Seq<char>
    decreases lines.len(),
{
    if lines.len() == 0 {
        Seq::empty()
    } else if lines.len() == 1 {
        lines[0]
    } else {
        joined(lines.drop_last()) + "\n"@ + lines.last()
    }
}

/// The text of a role: its name and department.
pub open spec fn role_line(role: RoleDto) -> Seq<char> {
    match role {
        RoleDto::Instructor { department } => "instructor ("@ + department@ + ")"@,
        RoleDto::Trainee { department } => "trainee ("@ + department@ + ")"@,
        RoleDto::Signer { department } => "signer ("@ + department@ + ")"@,
    }
}

/// The text of a role.
pub fn role_text(role: &RoleDto) -> (r: String)
    ensures
        r@ == role_line(*role),
{
    let (name, department) = match role {
        RoleDto::Instructor { department } => ("instructor (", department),
        RoleDto::Trainee { department } => ("trainee (", department),
        RoleDto::Signer { department } => ("signer (", department),
    };
    let mut text = String::from_str(name);
    text.append(department.as_str());
    text.append(")");
    text
}

/// The caller's identity and role.
pub open spec fn me_lines(me: MeView) -> Seq<char> {
    "id:   "@ + me.id@ + "\nrole: "@ + match me.role {
        None => "none (no department assigned)"@,
        Some(role) => role_line(role),
    }
}

/// Render the caller's identity and role.
pub fn me_text(me: &MeView) -> (r: String)
    ensures
        r@ == me_lines(*me),
{
    let role = match &me.role {
        None => String::from_str("none (no department assigned)"),
        Some(role) => role_text(role),
    };
    let mut text = String::from_str("id:   ");
    text.append(me.id.as_str());
    text.append("\nrole: ");
    text.append(role.as_str());
    text
}

/// Whether SSO is offered and where it starts.
pub open spec fn sso_lines(info: SsoInfo) -> Seq<char> {
    "enabled:   "@ + (if info.enabled {
        "true"@
    } else {
        "false"@
    }) + "\nlogin_url: "@ + match info.login_url {
        Some(url) => url@,
        None => "-"@,
    }
}

/// Render whether SSO is offered and where it starts.
pub fn sso_text(info: &SsoInfo) -> (r: String)
    ensures
        r@ == sso_lines(*info),
{
    let mut text = String::from_str("enabled:   ");
    text.append(if info.enabled { "true" } else { "false" });
    text.append("\nlogin_url: ");
    match &info.login_url {
        Some(url) => text.append(url.as_str()),
        None => text.append("-"),
    }
    text
}

/// Render the service's name and version.
pub fn info_text(info: &ApiInfo) -> (r: String)
    ensures
        r@ == info.name@ + " "@ + info.version@,
{
    let mut text = info.name.clone();
    text.append(" ");
    text.append(info.version.as_str());
    text
}

/// The one-word state of a report, with who signed it or why it was rejected.
pub open spec fn status_line(status: ReviewStatusDto) -> Seq<char> {
    match status {
        ReviewStatusDto::Draft => "draft"@,
        ReviewStatusDto::Submitted { .. } => "submitted"@,
        ReviewStatusDto::Signed { by, .. } => "signed by "@ + by@,
        ReviewStatusDto::Rejected { reason, .. } => "rejected: "@ + reason@,
    }
}

/// Render the state of a report.
pub fn status_text(status: &ReviewStatusDto) -> (r: String)
    ensures
        r@ == status_line(*status),
{
    match status {
        ReviewStatusDto::Draft => String::from_str("draft"),
        ReviewStatusDto::Submitted { .. } => String::from_str("submitted"),
        ReviewStatusDto::Signed { by, .. } => {
            let mut text = String::from_str("signed by ");
            text.append(by.as_str());
            text
        },
        ReviewStatusDto::Rejected { reason, .. } => {
            let mut text = String::from_str("rejected: ");
            text.append(reason.as_str());
            text
        },
    }
}

/// A report: its header fields, then a blank line, then the body.
pub open spec fn report_lines(report: ReportView) -> Seq<char> {
    "id:         "@ + report.id@ + "\nauthor:     "@ + report.author@ + "\ndepartment: "@
        + report.department@ + "\nstatus:     "@ + status_line(report.status) + "\n\n"@
        + report.content@
}

/// Render a report.
pub fn report_text(report: &ReportView) -> (r: String)
    ensures
        r@ == report_lines(*report),
{
    let status = status_text(&report.status);
    let mut text = String::from_str("id:         ");
    text.append(report.id.as_str());
    text.append("\nauthor:     ");
    text.append(report.author.as_str());
    text.append("\ndepartment: ");
    text.append(report.department.as_str());
    text.append("\nstatus:     ");
    text.append(status.as_str());
    text.append("\n\n");
    text.append(report.content.as_str());
    text
}

/// One line of the report list: id, state (padded to 14), author.
pub open spec fn report_row(report: ReportView) -> Seq<char> {
    report.id@ + "  "@ + pad_right(status_line(report.status), 14) + "  "@ + report.author@
}

/// The report list: one row per report, or `(no reports)`.
pub open spec fn reports_lines(reports: Seq<ReportView>) -> Seq<char> {
    if reports.len() == 0 {
        "(no reports)"@
    } else {
        joined(reports.map_values(|r: ReportView| report_row(r)))
    }
}

/// Render a list of reports.
pub fn reports_text(reports: &[ReportView]) -> (r: String)
    ensures
        r@ == reports_lines(reports@),
{
    if reports.len() == 0 {
        return String::from_str("(no reports)");
    }
    let ghost rows = reports@.map_values(|r: ReportView| report_row(r));
    let mut text = String::new();
    let mut i: usize = 0;
    while i < reports.len()
        invariant
            i <= reports@.len(),
            reports@.len() > 0,
            rows == reports@.map_values(|r: ReportView| report_row(r)),
            text@ == joined(rows.take(i as int)),
        decreases reports.len() - i,
    {
        let report = &reports[i];
        if i > 0 {
            text.append("\n");
        }
        let status = status_text(&report.status);
        text.append(report.id.as_str());
        text.append("  ");
        push_padded(&mut text, status.as_str(), 14);
        text.append("  ");
        text.append(report.author.as_str());
        proof {
            let prefix = rows.take(i + 1);
            assert(prefix.drop_last() =~= rows.take(i as int));
            assert(prefix.last() == report_row(*report));
            if i > 0 {
                assert(text@ =~= joined(prefix.drop_last()) + "\n"@ + prefix.last());
            } else {
                assert(text@ =~= prefix[0]);
            }
        }
        i = i + 1;
    }
    assert(rows.take(reports@.len() as int) =~= rows);
    text
}

/// The text of a marker.
pub open spec fn marker_word(marker: MarkerDto) -> Seq<char> {
    match marker {
        MarkerDto::Instructor => "instructor"@,
        MarkerDto::Trainee => "trainee"@,
        MarkerDto::Regular => "regular"@,
    }
}

/// Render a marker.
pub fn marker_text(marker: &MarkerDto) -> (r: &'static str)
    ensures
        r@ == marker_word(*marker),
{
    match marker {
        MarkerDto::Instructor => "instructor",
        MarkerDto::Trainee => "trainee",
        MarkerDto::Regular => "regular",
    }
}

/// One line of the user list: username (padded to 12), marker (to 10),
/// department or `-` (to 8), role or `inert`.
pub open spec fn user_row(user: UserSummary) -> Seq<char> {
    pad_right(user.username@, 12) + "  "@ + pad_right(marker_word(user.marker), 10) + "  "@
        + pad_right(
        match user.department {
            Some(d) => d@,
            None => "-"@,
        },
        8,
    ) + "  "@ + match user.role {
        Some(role) => role_line(role),
        None => "inert"@,
    }
}

/// Render one line of the user list.
fn user_row_text(user: &UserSummary) -> (r: String)
    ensures
        r@ == user_row(*user),
{
    let mut text = String::new();
    push_padded(&mut text, user.username.as_str(), 12);
    text.append("  ");
    push_padded(&mut text, marker_text(&user.marker), 10);
    text.append("  ");
    match &user.department {
        Some(d) => push_padded(&mut text, d.as_str(), 8),
        None => push_padded(&mut text, "-", 8),
    }
    text.append("  ");
    match &user.role {
        Some(role) => {
            let line = role_text(role);
            text.append(line.as_str());
        },
        None => text.append("inert"),
    }
    text
}

/// The user list: one row per user, or `(no users)`.
pub open spec fn users_lines(users: Seq<UserSummary>) -> Seq<char> {
    if users.len() == 0 {
        "(no users)"@
    } else {
        joined(users.map_values(|u: UserSummary| user_row(u)))
    }
}

/// Render a list of users.
pub fn users_text(users: &[UserSummary]) -> (r: String)
    ensures
        r@ == users_lines(users@),
{
    if users.len() == 0 {
        return String::from_str("(no users)");
    }
    let ghost rows = users@.map_values(|u: UserSummary| user_row(u));
    let mut text = String::new();
    let mut i: usize = 0;
    while i < users.len()
        invariant
            i <= users@.len(),
            users@.len() > 0,
            rows == users@.map_values(|u: UserSummary| user_row(u)),
            text@ == joined(rows.take(i as int)),
        decreases users.len() - i,
    {
        let user = &users[i];
        if i > 0 {
            text.append("\n");
        }
        let ghost before = text@;
        let row = user_row_text(user);
        text.append(row.as_str());
        proof {
            assert(text@ =~= before + user_row(*user));
            let prefix = rows.take(i + 1);
            assert(prefix.drop_last() =~= rows.take(i as int));
            assert(prefix.last() == user_row(*user));
            if i > 0 {
                assert(text@ =~= joined(prefix.drop_last()) + "\n"@ + prefix.last());
            } else {
                assert(text@ =~= prefix[0]);
            }
        }
        i = i + 1;
    }
    assert(rows.take(users@.len() as int) =~= rows);
    text
}

/// Whether two review states are the same kind of state.
pub open spec fn same_state_kind(a: ReviewStatusDto, b: ReviewStatusDto) -> bool {
    ||| a is Draft && b is Draft
    ||| a is Submitted && b is Submitted
    ||| a is Signed && b is Signed
    ||| a is Rejected && b is Rejected
}

/// How a report's state is shown: a draft as `draft`, a report awaiting a
/// signature as `submitted` (whenever it was submitted), a signed one as
/// `signed by` and the signer, a rejected one as `rejected:` and the reason.
/// States of different kinds are never shown alike.
pub proof fn lemma_status_words(a: ReviewStatusDto, b: ReviewStatusDto)
    ensures
        a is Draft ==> status_line(a) == "draft"@,
        a is Submitted ==> status_line(a) == "submitted"@,
        a matches ReviewStatusDto::Signed { by, .. } ==> status_line(a) == "signed by "@ + by@,
        a matches ReviewStatusDto::Rejected { reason, .. } ==> status_line(a) == "rejected: "@
            + reason@,
        !same_state_kind(a, b) ==> status_line(a) != status_line(b),
{
    reveal_strlit("draft");
    reveal_strlit("submitted");
    reveal_strlit("signed by ");
    reveal_strlit("rejected: ");
    if !same_state_kind(a, b) {
        let x = status_line(a);
        let y = status_line(b);
        if x == y {
            assert(x.len() > 1);
            assert(x[0] == y[0] && x[1] == y[1]);
        }
    }
}

/// A shown report starts with its id and then its author, each on its own
/// labelled line, and ends with its body.
pub proof fn lemma_report_header(r: ReportView)
    ensures
        report_lines(r).len() >= 12 + r.id@.len() + 13 + r.author@.len() + 1,
        report_lines(r).take((12 + r.id@.len() + 13 + r.author@.len() + 1) as int) == "id:         "@
            + r.id@ + "\nauthor:     "@ + r.author@ + "\n"@,
        report_lines(r).len() >= r.content@.len(),
        report_lines(r).skip(report_lines(r).len() - r.content@.len()) == r.content@,
{
    reveal_strlit("id:         ");
    reveal_strlit("\nauthor:     ");
    reveal_strlit("\ndepartment: ");
    reveal_strlit("\n");
    let head = "id:         "@ + r.id@ + "\nauthor:     "@ + r.author@ + "\n"@;
    let rest = "department: "@ + r.department@ + "\nstatus:     "@ + status_line(r.status)
        + "\n\n"@ + r.content@;
    assert("\ndepartment: "@ =~= "\n"@ + "department: "@) by {
        reveal_strlit("department: ");
    }
    assert(report_lines(r) =~= head + rest);
    assert((head + rest).take(head.len() as int) =~= head);
    let front = "id:         "@ + r.id@ + "\nauthor:     "@ + r.author@ + "\ndepartment: "@
        + r.department@ + "\nstatus:     "@ + status_line(r.status) + "\n\n"@;
    assert(report_lines(r) =~= front + r.content@);
    assert((front + r.content@).skip(front.len() as int) =~= r.content@);
}

/// A row of the user list shows, after the username and marker columns, the
/// user's department padded to 8 — or `-` only for a user without one — and
/// then the role.
pub proof fn lemma_user_row_department(u: UserSummary)
    ensures
        ({
            let before = pad_right(u.username@, 12) + "  "@ + pad_right(marker_word(u.marker), 10)
                + "  "@;
            let column = match u.department {
                Some(d) => pad_right(d@, 8),
                None => pad_right("-"@, 8),
            };
            &&& user_row(u).len() >= before.len() + column.len()
            &&& user_row(u).subrange(before.len() as int, (before.len() + column.len()) as int) == column
            &&& u.department matches Some(d) ==> user_row(u).subrange(
                before.len() as int,
                (before.len() + d@.len()) as int,
            ) == d@
        }),
{
    let before = pad_right(u.username@, 12) + "  "@ + pad_right(marker_word(u.marker), 10) + "  "@;
    let column = match u.department {
        Some(d) => pad_right(d@, 8),
        None => pad_right("-"@, 8),
    };
    let after = "  "@ + match u.role {
        Some(role) => role_line(role),
        None => "inert"@,
    };
    assert(user_row(u) =~= before + column + after);
    assert((before + column + after).subrange(before.len() as int, (before.len() + column.len()) as int)
        =~= column);
    if let Some(d) = u.department {
        assert(column.take(d@.len() as int) =~= d@);
        assert(user_row(u).subrange(before.len() as int, (before.len() + d@.len()) as int) =~= column.take(
            d@.len() as int,
        ));
    }
}

} // verus!
