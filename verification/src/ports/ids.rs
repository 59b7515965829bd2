//! Minting fresh identifiers.

use vstd::prelude::*;

use crate::models::ids::ReportId;

verus! {

/// Mints fresh identifiers: report ids and session-token values. Backends
/// implement it; nothing is promised of the values beyond their types.
pub trait IdGenerator: Send + Sync {
    /// A fresh report id.
    fn report_id(&self) -> ReportId;

    /// A fresh session-token value.
    fn session_token(&self) -> String;
}

} // verus!
