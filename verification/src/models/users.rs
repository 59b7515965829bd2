//! User handling.
//!
//! A user's identity, login name, and directory marker come from the LDAP
//! directory and are refreshed by the periodic directory sync. Their
//! **department** is local state: an admin assigns it and the sync preserves it.
//!
//! The marker and the department together decide the user's *effective*
//! [`Role`]: a user in the instructor group is an instructor, a user in the
//! trainee group is a trainee, and any other ("regular") user becomes a signer
//! once they have a department. A user with no department has no role at all.

use vstd::prelude::*;

use crate::models::ids::{DepartmentId, UserId};

verus! {

/// What the directory's group membership marks a user as.
#[derive(Debug, Clone, Copy, PartialEq, Eq, Structural)]
pub enum DirectoryMarker {
    /// Member of the instructor group.
    Instructor,
    /// Member of the trainee group.
    Trainee,
    /// In neither group; a signer once assigned a department.
    Regular,
}

/// A user's *effective* role, derived from their [`DirectoryMarker`] and
/// assigned [`DepartmentId`]. Every variant carries a department.
#[derive(Debug)]
pub enum Role {
    Instructor { department: DepartmentId },
    Trainee { department: DepartmentId },
    Signer { department: DepartmentId },
}

/// Holds information on a single user.
#[derive(Debug)]
pub struct User {
    id: UserId,
    username: String,
    marker: DirectoryMarker,
    department: Option<DepartmentId>,
}

/// The abstract content of a [`User`].
pub struct UserView {
    pub id: Seq<char>,
    pub username: Seq<char>,
    pub marker: DirectoryMarker,
    pub department: Option<Seq<char>>,
}

/// The view of an optional department.
pub open spec fn opt_department_view(d: Option<DepartmentId>) -> Option<Seq<char>> {
    match d {
        Some(d) => Some(d@),
        None => None,
    }
}

impl View for User {
    type V = UserView;

    closed spec fn view(&self) -> UserView {
        UserView {
            id: self.id@,
            username: self.username@,
            marker: self.marker,
            department: opt_department_view(self.department),
        }
    }
}

impl Role {
    /// The directory marker that yields this role once a department is set.
    pub open spec fn marker(&self) -> DirectoryMarker {
        match self {
            Role::Instructor { .. } => DirectoryMarker::Instructor,
            Role::Trainee { .. } => DirectoryMarker::Trainee,
            Role::Signer { .. } => DirectoryMarker::Regular,
        }
    }

    /// The department this role is scoped to, as text.
    pub open spec fn department_view(&self) -> Seq<char> {
        match self {
            Role::Instructor { department } => department@,
            Role::Trainee { department } => department@,
            Role::Signer { department } => department@,
        }
    }

    /// The department this role is scoped to.
    pub fn department(&self) -> (r: &DepartmentId)
        ensures
            r@ == self.department_view(),
    {
        match self {
            Role::Instructor { department } => department,
            Role::Trainee { department } => department,
            Role::Signer { department } => department,
        }
    }

    /// Whether this user is a trainee (the role that authors reports).
    pub fn is_trainee(&self) -> (r: bool)
        ensures
            r == (self is Trainee),
    {
        match self {
            Role::Trainee { .. } => true,
            _ => false,
        }
    }

    /// Whether this user is an instructor (read-only, global access to queues).
    pub fn is_instructor(&self) -> (r: bool)
        ensures
            r == (self is Instructor),
    {
        match self {
            Role::Instructor { .. } => true,
            _ => false,
        }
    }

    /// Whether this user is a signer (the role that signs and rejects reports).
    pub fn is_signer(&self) -> (r: bool)
        ensures
            r == (self is Signer),
    {
        match self {
            Role::Signer { .. } => true,
            _ => false,
        }
    }
}

/// The role a user with `marker` and `department` holds: `None` without a
/// department, otherwise the role named by the marker, in that department.
pub open spec fn role_matches(
    role: Option<Role>,
    marker: DirectoryMarker,
    department: Option<Seq<char>>,
) -> bool {
    match department {
        None => role is None,
        Some(d) => role matches Some(r) && r.marker() == marker && r.department_view() == d,
    }
}

impl User {
    /// Assemble a user from its identity, login name, directory marker, and
    /// (optional) department assignment.
    pub fn new(
        id: UserId,
        username: String,
        marker: DirectoryMarker,
        department: Option<DepartmentId>,
    ) -> (r: User)
        ensures
            r@.id == id@,
            r@.username == username@,
            r@.marker == marker,
            r@.department == opt_department_view(department),
    {
        User { id, username, marker, department }
    }

    /// The user's stable identity.
    pub fn id(&self) -> (r: &UserId)
        ensures
            r@ == self@.id,
    {
        &self.id
    }

    /// The user's directory login name.
    pub fn username(&self) -> (r: &str)
        ensures
            r@ == self@.username,
    {
        self.username.as_str()
    }

    /// What the directory marks this user as, independent of any department.
    pub fn marker(&self) -> (r: &DirectoryMarker)
        ensures
            *r == self@.marker,
    {
        &self.marker
    }

    /// The department this user is assigned to, or `None` if unassigned.
    pub fn department(&self) -> (r: Option<&DepartmentId>)
        ensures
            match r {
                Some(d) => self@.department == Some(d@),
                None => self@.department is None,
            },
    {
        match &self.department {
            Some(d) => Some(d),
            None => None,
        }
    }

    /// The user's *effective* role, derived from their marker and department.
    ///
    /// Returns `None` while the user has no department: such a user is inert and
    /// can neither author, sign, nor review anything.
    pub fn role(&self) -> (r: Option<Role>)
        ensures
            role_matches(r, self@.marker, self@.department),
    {
        match &self.department {
            None => None,
            Some(d) => {
                let department = d.clone();
                Some(
                    match self.marker {
                        DirectoryMarker::Instructor => Role::Instructor { department },
                        DirectoryMarker::Trainee => Role::Trainee { department },
                        DirectoryMarker::Regular => Role::Signer { department },
                    },
                )
            },
        }
    }

    /// Return a copy of this user assigned to `department`.
    pub fn with_department(&self, department: DepartmentId) -> (r: User)
        ensures
            r@.id == self@.id,
            r@.username == self@.username,
            r@.marker == self@.marker,
            r@.department == Some(department@),
    {
        User {
            id: self.id.clone(),
            username: self.username.clone(),
            marker: self.marker,
            department: Some(department),
        }
    }

    /// Return a copy of this user with no department (rendering them inert).
    pub fn without_department(&self) -> (r: User)
        ensures
            r@.id == self@.id,
            r@.username == self@.username,
            r@.marker == self@.marker,
            r@.department is None,
    {
        User {
            id: self.id.clone(),
            username: self.username.clone(),
            marker: self.marker,
            department: None,
        }
    }

    /// A copy of this user.
    pub fn duplicate(&self) -> (r: User)
        ensures
            r@ == self@,
    {
        User {
            id: self.id.clone(),
            username: self.username.clone(),
            marker: self.marker,
            department: match &self.department {
                Some(d) => Some(d.clone()),
                None => None,
            },
        }
    }
}

impl Clone for User {
    fn clone(&self) -> (r: User)
        ensures
            r@ == self@,
    {
        self.duplicate()
    }
}

impl Clone for Role {
    fn clone(&self) -> (r: Role)
        ensures
            r.marker() == self.marker(),
            r.department_view() == self.department_view(),
    {
        match self {
            Role::Instructor { department } => Role::Instructor { department: department.clone() },
            Role::Trainee { department } => Role::Trainee { department: department.clone() },
            Role::Signer { department } => Role::Signer { department: department.clone() },
        }
    }
}

/// A user is active (has a role) exactly when a department is assigned:
/// assigning one makes any user active, clearing it makes any user inert.
pub proof fn lemma_department_toggles_activity(
    marker: DirectoryMarker,
    department: Seq<char>,
    with_role: Option<Role>,
    without_role: Option<Role>,
)
    requires
        role_matches(with_role, marker, Some(department)),
        role_matches(without_role, marker, None),
    ensures
        with_role is Some,
        with_role->0.department_view() == department,
        without_role is None,
{
}

} // verus!
