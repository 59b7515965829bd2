//! Manual user administration.
//!
//! The directory owns who a user is and which group they belong to; the one
//! thing it does not own is the user's department. [`UserAdmin`] is the single
//! place that manual assignment happens, and it refuses a department the
//! instance does not recognise.

use vstd::prelude::*;

use crate::errors::DomainError;
use crate::models::department::DepartmentRegistry;
use crate::models::ids::{DepartmentId, UserId};
use crate::models::users::User;
use crate::services::report::{found_user, missing_user_message};

verus! {

/// Assigns and clears users' departments over user storage `U`, validating
/// against the configured set.
#[derive(Debug, Clone)]
pub struct UserAdmin<U> {
    users: U,
    departments: DepartmentRegistry,
}

impl<U> UserAdmin<U> {
    /// Wire the admin service to user storage and the configured departments.
    pub fn new(users: U, departments: DepartmentRegistry) -> (r: Self)
        ensures
            r.users_spec() == users,
            r.departments_spec() == departments@,
    {
        UserAdmin { users, departments }
    }

    /// User storage.
    pub closed spec fn users_spec(&self) -> U {
        self.users
    }

    /// The configured departments.
    pub closed spec fn departments_spec(&self) -> Seq<Seq<char>> {
        self.departments@
    }

    /// User storage.
    pub fn users(&self) -> (r: &U)
        ensures
            *r == self.users_spec(),
    {
        &self.users
    }

    /// The configured departments.
    pub fn departments(&self) -> (r: &DepartmentRegistry)
        ensures
            r@ == self.departments_spec(),
    {
        &self.departments
    }

    /// A department may only be assigned when it is one of the configured
    /// ones; otherwise [`DomainError::Invalid`].
    pub fn check_department(&self, department: &DepartmentId) -> (r: Result<(), DomainError>)
        ensures
            r is Ok <==> self.departments_spec().contains(department@),
            r matches Err(e) ==> e is Invalid && e.message() == "unknown department "@
                + department@,
    {
        if !self.departments.contains(department) {
            let mut message = String::from_str("unknown department ");
            message.append(department.as_str());
            return Err(DomainError::Invalid(message));
        }
        Ok(())
    }

    /// The stored user to change, from the lookup of `id`; a missing user is
    /// [`DomainError::NotFound`].
    pub fn existing(user: Option<User>, id: &UserId) -> (r: Result<User, DomainError>)
        ensures
            match user {
                None => r matches Err(e) && e is NotFound && e.message() == missing_user_message(
                    id@,
                ),
                Some(u) => r matches Ok(v) && v@ == u@,
            },
    {
        found_user(user, id)
    }
}

/// A change to a user's department.
#[derive(Debug)]
pub enum DepartmentChange {
    /// Assign this department.
    Assign(DepartmentId),
    /// Clear the department, rendering the user inert.
    Clear,
}

/// Where a department change stands.
#[derive(Debug)]
pub enum AdminFlow {
    /// Waiting for the lookup of user `id`.
    AwaitUser { id: UserId, change: DepartmentChange },
    /// Waiting for the changed user to be stored.
    AwaitStored,
    /// Done; the result was handed out.
    Finished,
}

/// What a round-trip of a department change answered.
#[derive(Debug)]
pub enum AdminEvent {
    /// The lookup of the user found this.
    User(Option<User>),
    /// The changed user was stored.
    Stored,
}

/// What a department change does next.
#[derive(Debug)]
pub enum AdminAction {
    /// Look up this user.
    LookupUser(UserId),
    /// Store this user.
    Store(User),
    /// Stop with this result.
    Finish(Result<(), DomainError>),
}

impl<U> UserAdmin<U> {
    /// Begin assigning `department` to user `id`. A department the instance
    /// does not recognise is refused at once, before any lookup.
    pub fn begin_assign(&self, id: UserId, department: DepartmentId) -> (r: (AdminFlow, AdminAction))
        ensures
            if self.departments_spec().contains(department@) {
                &&& r.0 matches AdminFlow::AwaitUser { id: i, change: DepartmentChange::Assign(d) }
                    && i@ == id@ && d@ == department@
                &&& r.1 matches AdminAction::LookupUser(u) && u@ == id@
            } else {
                &&& r.0 is Finished
                &&& r.1 matches AdminAction::Finish(Err(e)) && e is Invalid && e.message()
                    == "unknown department "@ + department@
            },
    {
        match self.check_department(&department) {
            Ok(()) => {
                let lookup = id.clone();
                (
                    AdminFlow::AwaitUser { id, change: DepartmentChange::Assign(department) },
                    AdminAction::LookupUser(lookup),
                )
            },
            Err(e) => (AdminFlow::Finished, AdminAction::Finish(Err(e))),
        }
    }

    /// Begin clearing user `id`'s department: first look the user up.
    pub fn begin_clear(id: UserId) -> (r: (AdminFlow, AdminAction))
        ensures
            r.0 matches AdminFlow::AwaitUser { id: i, change: DepartmentChange::Clear } && i@
                == id@,
            r.1 matches AdminAction::LookupUser(u) && u@ == id@,
    {
        let lookup = id.clone();
        (AdminFlow::AwaitUser { id, change: DepartmentChange::Clear }, AdminAction::LookupUser(lookup))
    }
}

impl AdminFlow {
    /// Whether `event` answers the round-trip this flow waits for.
    pub open spec fn expects(&self, event: &AdminEvent) -> bool {
        match self {
            AdminFlow::AwaitUser { .. } => event is User,
            AdminFlow::AwaitStored => event is Stored,
            AdminFlow::Finished => false,
        }
    }

    /// The next state and action once `event` answered the last round-trip:
    /// a missing user is not found; otherwise the user is stored with only the
    /// department changed.
    pub fn step(self, event: AdminEvent) -> (r: (AdminFlow, AdminAction))
        requires
            self.expects(&event),
        ensures
            match (self, event) {
                (AdminFlow::AwaitUser { id, change }, AdminEvent::User(user)) => match user {
                    None => {
                        &&& r.0 is Finished
                        &&& r.1 matches AdminAction::Finish(Err(e)) && e is NotFound
                            && e.message() == missing_user_message(id@)
                    },
                    Some(u) => {
                        &&& r.0 is AwaitStored
                        &&& r.1 matches AdminAction::Store(v) && v@.id == u@.id && v@.username
                            == u@.username && v@.marker == u@.marker && v@.department == match change {
                            DepartmentChange::Assign(d) => Some(d@),
                            DepartmentChange::Clear => None,
                        }
                    },
                },
                (AdminFlow::AwaitStored, AdminEvent::Stored) => {
                    &&& r.0 is Finished
                    &&& r.1 matches AdminAction::Finish(Ok(()))
                },
                _ => false,
            },
    {
        match self {
            AdminFlow::AwaitUser { id, change } => {
                let user = match event {
                    AdminEvent::User(user) => user,
                    _ => { return (AdminFlow::Finished, AdminAction::Finish(Ok(()))); },
                };
                let existing = match found_user(user, &id) {
                    Ok(u) => u,
                    Err(e) => { return (AdminFlow::Finished, AdminAction::Finish(Err(e))); },
                };
                let changed = match change {
                    DepartmentChange::Assign(d) => existing.with_department(d),
                    DepartmentChange::Clear => existing.without_department(),
                };
                (AdminFlow::AwaitStored, AdminAction::Store(changed))
            },
            AdminFlow::AwaitStored => (AdminFlow::Finished, AdminAction::Finish(Ok(()))),
            AdminFlow::Finished => (AdminFlow::Finished, AdminAction::Finish(Ok(()))),
        }
    }
}

} // verus!
