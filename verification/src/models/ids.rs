//! Identity newtypes.
//!
//! The domain identifies its actors and aggregates by opaque string ids rather
//! than raw strings, so a user id cannot be mixed up with a report id. Each id is
//! viewed as the text it wraps; two ids are `==` exactly when their texts are.

use vstd::prelude::*;

verus! {

/// Stable identity of a [`User`](crate::models::users::User).
///
/// Distinct from the login username: the username can change, the id does not.
#[derive(Debug)]
pub struct UserId(String);

/// Stable identity of a department.
///
/// Departments are a fixed set defined at startup (see
/// [`DepartmentRegistry`](crate::models::department::DepartmentRegistry)).
#[derive(Debug)]
pub struct DepartmentId(String);

/// Stable identity of a [`Report`](crate::models::report::Report).
#[derive(Debug)]
pub struct ReportId(String);

impl View for UserId {
    type V = Seq<char>;

    closed spec fn view(&self) -> Seq<char> {
        self.0@
    }
}

impl View for DepartmentId {
    type V = Seq<char>;

    closed spec fn view(&self) -> Seq<char> {
        self.0@
    }
}

impl View for ReportId {
    type V = Seq<char>;

    closed spec fn view(&self) -> Seq<char> {
        self.0@
    }
}

impl UserId {
    /// Wrap an existing identifier.
    pub fn new(value: &str) -> (r: UserId)
        ensures
            r@ == value@,
    {
        UserId(String::from_str(value))
    }

    /// Borrow the underlying identifier.
    pub fn as_str(&self) -> (r: &str)
        ensures
            r@ == self@,
    {
        self.0.as_str()
    }
}

impl DepartmentId {
    /// Wrap an existing identifier.
    pub fn new(value: &str) -> (r: DepartmentId)
        ensures
            r@ == value@,
    {
        DepartmentId(String::from_str(value))
    }

    /// Borrow the underlying identifier.
    pub fn as_str(&self) -> (r: &str)
        ensures
            r@ == self@,
    {
        self.0.as_str()
    }
}

impl ReportId {
    /// Wrap an existing identifier.
    pub fn new(value: &str) -> (r: ReportId)
        ensures
            r@ == value@,
    {
        ReportId(String::from_str(value))
    }

    /// Borrow the underlying identifier.
    pub fn as_str(&self) -> (r: &str)
        ensures
            r@ == self@,
    {
        self.0.as_str()
    }
}

impl Clone for UserId {
    fn clone(&self) -> (r: UserId)
        ensures
            r@ == self@,
    {
        UserId(self.0.clone())
    }
}

impl Clone for DepartmentId {
    fn clone(&self) -> (r: DepartmentId)
        ensures
            r@ == self@,
    {
        DepartmentId(self.0.clone())
    }
}

impl Clone for ReportId {
    fn clone(&self) -> (r: ReportId)
        ensures
            r@ == self@,
    {
        ReportId(self.0.clone())
    }
}

impl PartialEq for UserId {
    fn eq(&self, other: &UserId) -> (r: bool) {
        self.0 == other.0
    }
}

impl vstd::std_specs::cmp::PartialEqSpecImpl for UserId {
    open spec fn obeys_eq_spec() -> bool {
        true
    }

    open spec fn eq_spec(&self, other: &UserId) -> bool {
        self@ == other@
    }
}

impl Eq for UserId {}

impl PartialEq for DepartmentId {
    fn eq(&self, other: &DepartmentId) -> (r: bool) {
        self.0 == other.0
    }
}

impl vstd::std_specs::cmp::PartialEqSpecImpl for DepartmentId {
    open spec fn obeys_eq_spec() -> bool {
        true
    }

    open spec fn eq_spec(&self, other: &DepartmentId) -> bool {
        self@ == other@
    }
}

impl Eq for DepartmentId {}

impl PartialEq for ReportId {
    fn eq(&self, other: &ReportId) -> (r: bool) {
        self.0 == other.0
    }
}

impl vstd::std_specs::cmp::PartialEqSpecImpl for ReportId {
    open spec fn obeys_eq_spec() -> bool {
        true
    }

    open spec fn eq_spec(&self, other: &ReportId) -> bool {
        self@ == other@
    }
}

impl Eq for ReportId {}

} // verus!
