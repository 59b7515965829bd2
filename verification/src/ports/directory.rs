//! Entries read from the user directory (LDAP).

use vstd::prelude::*;

use crate::models::ids::UserId;
use crate::models::users::DirectoryMarker;

verus! {

/// One user as seen in the external directory.
///
/// Carries only what the directory is authoritative for: the stable id, the
/// login name, and the group-derived [`DirectoryMarker`]. The department is
/// local state the directory sync leaves untouched.
#[derive(Debug)]
pub struct DirectoryEntry {
    /// Stable identity, matching the subject an SSO token will attest.
    pub id: UserId,
    /// The login name recorded for the user.
    pub username: String,
    /// What the directory's group membership marks the user as.
    pub marker: DirectoryMarker,
}

impl Clone for DirectoryEntry {
    fn clone(&self) -> (r: DirectoryEntry)
        ensures
            r.id@ == self.id@,
            r.username@ == self.username@,
            r.marker == self.marker,
    {
        DirectoryEntry { id: self.id.clone(), username: self.username.clone(), marker: self.marker }
    }
}

} // verus!
