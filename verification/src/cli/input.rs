//! Where a command's input comes from and where its output goes.
//!
//! Report bodies come from `--content`, or from `--file` (where `-` means
//! standard input); an exported PDF goes to `--output` (where `-` means
//! standard output) or to a file named after the report. The reading and
//! writing themselves happen at the edge of the program.

use vstd::prelude::*;

verus! {

/// Where a report body is read from.
#[derive(Debug)]
pub enum ContentSource {
    /// The text given with `--content`.
    Inline(String),
    /// Standard input.
    Stdin,
    /// The file at this path.
    File(String),
    /// Neither option was given.
    Missing,
}

/// Whether `path` is `-`, the conventional name for a standard stream.
pub open spec fn is_dash(path: Seq<char>) -> bool {
    path == seq!['-']
}

fn dash(path: &str) -> (r: bool)
    ensures
        r == is_dash(path@),
{
    let n = path.unicode_len();
    let r = n == 1 && path.get_char(0) == '-';
    assert(r ==> path@ =~= seq!['-']);
    r
}

/// Pick the source of a report body: `--content` wins; otherwise `--file`,
/// with `-` standing for standard input.
pub fn content_source(content: Option<String>, file: Option<String>) -> (r: ContentSource)
    ensures
        match (content, file) {
            (Some(c), _) => r matches ContentSource::Inline(t) && t@ == c@,
            (None, Some(f)) => if is_dash(f@) {
                r is Stdin
            } else {
                r matches ContentSource::File(p) && p@ == f@
            },
            (None, None) => r is Missing,
        },
{
    match (content, file) {
        (Some(c), _) => ContentSource::Inline(c),
        (None, Some(f)) => if dash(f.as_str()) {
            ContentSource::Stdin
        } else {
            ContentSource::File(f)
        },
        (None, None) => ContentSource::Missing,
    }
}

/// Where an exported PDF is written.
#[derive(Debug)]
pub enum ExportTarget {
    Stdout,
    File(String),
}

/// The file an export is written to when no `--output` is given.
pub open spec fn default_export_name(id: Seq<char>) -> Seq<char> {
    "ausbildungsnachweis-"@ + id + ".pdf"@
}

/// Pick where an exported report goes: `--output -` is standard output,
/// another `--output` that file, and no `--output` a file named after the
/// report id.
pub fn export_target(output: Option<String>, id: &str) -> (r: ExportTarget)
    ensures
        match output {
            Some(o) => if is_dash(o@) {
                r is Stdout
            } else {
                r matches ExportTarget::File(p) && p@ == o@
            },
            None => r matches ExportTarget::File(p) && p@ == default_export_name(id@),
        },
{
    match output {
        Some(o) => if dash(o.as_str()) {
            ExportTarget::Stdout
        } else {
            ExportTarget::File(o)
        },
        None => {
            let mut name = String::from_str("ausbildungsnachweis-");
            name.append(id);
            name.append(".pdf");
            ExportTarget::File(name)
        },
    }
}

} // verus!
