//! The fixed set of departments an instance knows about.
//!
//! Departments are hard-coded at startup: the server reads them from config and
//! builds a [`DepartmentRegistry`], which the user administration consults to
//! reject any manual assignment to a department the instance does not recognise.

use vstd::prelude::*;

use crate::models::ids::DepartmentId;

verus! {

/// The distinct elements of `s`, each at the position of its first occurrence.
pub open spec fn first_occurrences<A>(s: Seq<A>) -> Seq<A>
    decreases s.len(),
{
    if s.len() == 0 {
        Seq::empty()
    } else {
        let prefix = first_occurrences(s.drop_last());
        if prefix.contains(s.last()) {
            prefix
        } else {
            prefix.push(s.last())
        }
    }
}

/// Deduplicating keeps exactly the elements of `s`, each once.
pub proof fn lemma_first_occurrences<A>(s: Seq<A>)
    ensures
        first_occurrences(s).no_duplicates(),
        forall|x: A| #[trigger] first_occurrences(s).contains(x) <==> s.contains(x),
    decreases s.len(),
{
    if s.len() > 0 {
        lemma_first_occurrences(s.drop_last());
        let prefix = first_occurrences(s.drop_last());
        assert forall|x: A| #[trigger] first_occurrences(s).contains(x) <==> s.contains(x) by {
            if s.contains(x) && !s.drop_last().contains(x) {
                let i = choose|i: int| 0 <= i < s.len() && s[i] == x;
                if i < s.len() - 1 {
                    assert(s.drop_last()[i] == x);
                }
            }
            if s.drop_last().contains(x) {
                let i = choose|i: int| 0 <= i < s.drop_last().len() && s.drop_last()[i] == x;
                assert(s[i] == x);
            }
            if !prefix.contains(s.last()) {
                if prefix.push(s.last()).contains(x) && x != s.last() {
                    let i = choose|i: int|
                        0 <= i < prefix.push(s.last()).len() && prefix.push(s.last())[i] == x;
                    assert(prefix[i] == x);
                }
                if x == s.last() {
                    assert(prefix.push(s.last())[prefix.len() as int] == x);
                }
                if prefix.contains(x) {
                    let i = choose|i: int| 0 <= i < prefix.len() && prefix[i] == x;
                    assert(prefix.push(s.last())[i] == x);
                }
            }
        }
    }
}

/// The set of departments configured for this instance.
///
/// Order is irrelevant for lookups and duplicates are collapsed, so the backing
/// store is a deduplicated list in first-seen order.
#[derive(Debug, Clone)]
pub struct DepartmentRegistry {
    departments: Vec<DepartmentId>,
}

impl View for DepartmentRegistry {
    type V = Seq<Seq<char>>;

    closed spec fn view(&self) -> Seq<Seq<char>> {
        self.departments@.map_values(|d: DepartmentId| d@)
    }
}

impl DepartmentRegistry {
    /// Build a registry from the departments configured at startup, dropping
    /// duplicates while preserving first-seen order.
    pub fn new(departments: Vec<DepartmentId>) -> (r: DepartmentRegistry)
        ensures
            r@ == first_occurrences(departments@.map_values(|d: DepartmentId| d@)),
            r@.no_duplicates(),
            forall|d: Seq<char>|
                #[trigger] r@.contains(d) <==> departments@.map_values(
                    |d: DepartmentId| d@,
                ).contains(d),
    {
        let ghost input = departments@.map_values(|d: DepartmentId| d@);
        let mut deduped: Vec<DepartmentId> = Vec::new();
        let mut i: usize = 0;
        while i < departments.len()
            invariant
                i <= departments.len(),
                input == departments@.map_values(|d: DepartmentId| d@),
                deduped@.map_values(|d: DepartmentId| d@) == first_occurrences(
                    input.take(i as int),
                ),
            decreases departments.len() - i,
        {
            let department = &departments[i];
            let ghost before = deduped@.map_values(|d: DepartmentId| d@);
            let known = contains_department(&deduped, department);
            assert(input.take(i + 1).drop_last() =~= input.take(i as int));
            if !known {
                deduped.push(department.clone());
                assert(deduped@.map_values(|d: DepartmentId| d@) =~= before.push(department@));
            }
            i = i + 1;
        }
        assert(input.take(departments.len() as int) =~= input);
        proof {
            lemma_first_occurrences(input);
        }
        DepartmentRegistry { departments: deduped }
    }

    /// Whether `department` is one of the configured departments.
    pub fn contains(&self, department: &DepartmentId) -> (r: bool)
        ensures
            r == self@.contains(department@),
    {
        contains_department(&self.departments, department)
    }

    /// Every configured department.
    pub fn all(&self) -> (r: &[DepartmentId])
        ensures
            r@.map_values(|d: DepartmentId| d@) == self@,
    {
        self.departments.as_slice()
    }

    /// Whether no departments are configured at all.
    pub fn is_empty(&self) -> (r: bool)
        ensures
            r == (self@.len() == 0),
    {
        self.departments.len() == 0
    }

    /// A registry with no departments.
    pub fn empty() -> (r: DepartmentRegistry)
        ensures
            r@ == Seq::<Seq<char>>::empty(),
    {
        let r = DepartmentRegistry { departments: Vec::new() };
        assert(r@ =~= Seq::<Seq<char>>::empty());
        r
    }
}

impl Default for DepartmentRegistry {
    fn default() -> (r: DepartmentRegistry)
        ensures
            r@ == Seq::<Seq<char>>::empty(),
    {
        DepartmentRegistry::empty()
    }
}

/// Whether `list` holds an id equal to `department`.
fn contains_department(list: &Vec<DepartmentId>, department: &DepartmentId) -> (r: bool)
    ensures
        r == list@.map_values(|d: DepartmentId| d@).contains(department@),
{
    let ghost views = list@.map_values(|d: DepartmentId| d@);
    let mut i: usize = 0;
    while i < list.len()
        invariant
            i <= list.len(),
            views == list@.map_values(|d: DepartmentId| d@),
            forall|j: int| 0 <= j < i ==> views[j] != department@,
        decreases list.len() - i,
    {
        if list[i] == *department {
            assert(views[i as int] == department@);
            return true;
        }
        i = i + 1;
    }
    proof {
        if views.contains(department@) {
            let j = choose|j: int| 0 <= j < views.len() && views[j] == department@;
        }
    }
    false
}

} // verus!
