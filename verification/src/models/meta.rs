//! Service-metadata value objects.

use vstd::prelude::*;

verus! {

/// Basic metadata about the running service.
#[derive(Debug)]
pub struct ServiceInfo {
    /// Service name, e.g. `"relatum"`.
    pub name: String,
    /// Semantic version of the service.
    pub version: String,
}

impl Clone for ServiceInfo {
    fn clone(&self) -> (r: ServiceInfo)
        ensures
            r.name@ == self.name@,
            r.version@ == self.version@,
    {
        ServiceInfo { name: self.name.clone(), version: self.version.clone() }
    }
}

} // verus!
