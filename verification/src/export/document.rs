//! What the renderer is handed for one report.

use vstd::prelude::*;

verus! {

/// One party's signature line on the report: their name, their PNG signature
/// image (empty when none is on file) and the date shown next to it.
pub struct SignatureBlock {
    pub name: String,
    pub png_bytes: Vec<u8>,
    pub date: String,
}

/// Everything needed to render one report. All text is plain (the caller
/// formats dates and the week range); signature images are raw PNG bytes.
pub struct ReportDocument {
    pub author_name: String,
    pub department: String,
    /// For example `"08.06.2026 bis 14.06.2026"`.
    pub week_range: String,
    /// Shown after "Nr." in the header (typically the report id).
    pub report_no: Option<String>,
    /// Shown as the training year; blank when unknown.
    pub training_year: Option<String>,
    pub body_markdown: String,
    /// The author; always present, though the image may be empty.
    pub author: SignatureBlock,
    /// The signer; present only once the report is signed.
    pub signer: Option<SignatureBlock>,
}

} // verus!
