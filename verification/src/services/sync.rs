//! Directory-sync use-case.
//!
//! [`DirectorySync`] reconciles the external directory (LDAP) into local user
//! storage. Reconciliation rule, applied on each run:
//! - an entry not seen locally is **created** (with no department — inert until
//!   an admin assigns one);
//! - an entry already present has its username/marker **refreshed**, while its
//!   locally-assigned **department is preserved**;
//! - a local user absent from the directory is **removed**.

use vstd::prelude::*;

use crate::models::ids::UserId;
use crate::models::users::{User, UserView};
use crate::ports::directory::DirectoryEntry;

verus! {

/// The outcome of one sync pass.
#[derive(Debug, Clone, Copy, Default, PartialEq, Eq, Structural)]
pub struct SyncSummary {
    /// Users created because they were new in the directory.
    pub added: usize,
    /// Existing users whose marker or username was refreshed.
    pub updated: usize,
    /// Local users removed because they vanished from the directory.
    pub removed: usize,
}

/// Reconciles directory entries from source `D` into user storage `U`.
#[derive(Debug, Clone)]
pub struct DirectorySync<D, U> {
    directory: D,
    users: U,
}

impl<D, U> DirectorySync<D, U> {
    /// Wire the sync to its directory source and user storage.
    pub fn new(directory: D, users: U) -> (r: Self)
        ensures
            r.parts() == (directory, users),
    {
        DirectorySync { directory, users }
    }

    /// The backends the sync was wired to.
    pub closed spec fn parts(&self) -> (D, U) {
        (self.directory, self.users)
    }

    /// The directory source.
    pub fn directory(&self) -> (r: &D)
        ensures
            *r == self.parts().0,
    {
        &self.directory
    }

    /// User storage.
    pub fn users(&self) -> (r: &U)
        ensures
            *r == self.parts().1,
    {
        &self.users
    }
}

/// What to do with one directory entry, given the stored user with its id.
#[derive(Debug)]
pub enum Reconcile {
    /// Store this brand-new user.
    Create(User),
    /// Store this refreshed copy of the existing user.
    Update(User),
    /// The stored user already matches the entry; write nothing.
    Unchanged,
}

/// A brand-new local user for a directory entry: marker from the directory, no
/// department yet (inert until an admin assigns one).
pub fn provision(entry: DirectoryEntry) -> (r: User)
    ensures
        r@.id == entry.id@,
        r@.username == entry.username@,
        r@.marker == entry.marker,
        r@.department is None,
{
    User::new(entry.id, entry.username, entry.marker, None)
}

/// Refresh an existing user from a directory entry, **keeping** their
/// department. `None` when nothing changed, so storage is only written when
/// needed.
pub fn merge(existing: &User, entry: &DirectoryEntry) -> (r: Option<User>)
    ensures
        (existing@.username == entry.username@ && existing@.marker == entry.marker) <==> r is None,
        r matches Some(u) ==> u@.id == entry.id@ && u@.username == entry.username@ && u@.marker
            == entry.marker && u@.department == existing@.department,
{
    if String::from_str(existing.username()) == entry.username && *existing.marker() == entry.marker {
        return None;
    }
    let department = match existing.department() {
        Some(d) => Some(d.clone()),
        None => None,
    };
    Some(User::new(entry.id.clone(), entry.username.clone(), entry.marker, department))
}

/// The user a directory entry stands for, with the given department.
pub open spec fn entry_user(e: DirectoryEntry, department: Option<Seq<char>>) -> UserView {
    UserView { id: e.id@, username: e.username@, marker: e.marker, department }
}

/// What one directory entry writes, given what storage holds under its id:
/// a new user without a department, a refreshed user keeping their
/// department, or nothing when username and marker already match.
pub open spec fn entry_write(found: Option<UserView>, e: DirectoryEntry) -> Option<UserView> {
    match found {
        None => Some(entry_user(e, None)),
        Some(u) => if u.username == e.username@ && u.marker == e.marker {
            None
        } else {
            Some(entry_user(e, u.department))
        },
    }
}

/// The view of an optional user.
pub open spec fn opt_user_view(u: Option<User>) -> Option<UserView> {
    match u {
        Some(u) => Some(u@),
        None => None,
    }
}

/// Decide what one directory entry does to storage, given the lookup of its id.
pub fn reconcile(existing: Option<User>, entry: DirectoryEntry) -> (r: Reconcile)
    ensures
        match existing {
            None => r matches Reconcile::Create(u) && u@.id == entry.id@ && u@.username
                == entry.username@ && u@.marker == entry.marker && u@.department is None,
            Some(e) => if e@.username == entry.username@ && e@.marker == entry.marker {
                r is Unchanged
            } else {
                r matches Reconcile::Update(u) && u@.id == entry.id@ && u@.username
                    == entry.username@ && u@.marker == entry.marker && u@.department
                    == e@.department
            },
        },
        match r {
            Reconcile::Create(u) => existing is None && entry_write(opt_user_view(existing), entry)
                == Some(u@),
            Reconcile::Update(u) => existing is Some && entry_write(opt_user_view(existing), entry)
                == Some(u@),
            Reconcile::Unchanged => entry_write(opt_user_view(existing), entry) is None,
        },
{
    match existing {
        None => Reconcile::Create(provision(entry)),
        Some(e) => match merge(&e, &entry) {
            Some(u) => Reconcile::Update(u),
            None => Reconcile::Unchanged,
        },
    }
}

/// The running state of one sync pass: the ids the directory listed so far and
/// the counts of what changed.
#[derive(Debug)]
pub struct SyncPass {
    seen: Vec<UserId>,
    summary: SyncSummary,
}

impl SyncPass {
    /// The ids the directory listed so far.
    pub closed spec fn seen_ids(&self) -> Seq<Seq<char>> {
        self.seen@.map_values(|u: UserId| u@)
    }

    /// The counts so far.
    pub closed spec fn counts(&self) -> SyncSummary {
        self.summary
    }

    /// A pass that has seen nothing and changed nothing.
    pub fn start() -> (r: SyncPass)
        ensures
            r.seen_ids() == Seq::<Seq<char>>::empty(),
            r.counts() == (SyncSummary { added: 0, updated: 0, removed: 0 }),
    {
        let r = SyncPass {
            seen: Vec::new(),
            summary: SyncSummary { added: 0, updated: 0, removed: 0 },
        };
        assert(r.seen_ids() =~= Seq::<Seq<char>>::empty());
        r
    }

    /// Note that the directory listed `id`.
    pub fn see(&mut self, id: &UserId)
        ensures
            final(self).seen_ids() == old(self).seen_ids().push(id@),
            final(self).counts() == old(self).counts(),
    {
        self.seen.push(id.clone());
        assert(self.seen_ids() =~= old(self).seen_ids().push(id@));
    }

    /// Count the change one entry made.
    pub fn record(&mut self, change: &Reconcile)
        requires
            old(self).counts().added < usize::MAX,
            old(self).counts().updated < usize::MAX,
        ensures
            final(self).seen_ids() == old(self).seen_ids(),
            final(self).counts() == (match change {
                Reconcile::Create(_) => SyncSummary {
                    added: (old(self).counts().added + 1) as usize,
                    ..old(self).counts()
                },
                Reconcile::Update(_) => SyncSummary {
                    updated: (old(self).counts().updated + 1) as usize,
                    ..old(self).counts()
                },
                Reconcile::Unchanged => old(self).counts(),
            }),
    {
        match change {
            Reconcile::Create(_) => {
                self.summary.added = self.summary.added + 1;
            },
            Reconcile::Update(_) => {
                self.summary.updated = self.summary.updated + 1;
            },
            Reconcile::Unchanged => {},
        }
    }

    /// Whether a stored user is to be pruned: the directory did not list them.
    pub fn is_stale(&self, user: &User) -> (r: bool)
        ensures
            r == !self.seen_ids().contains(user@.id),
    {
        let ghost views = self.seen_ids();
        let mut i: usize = 0;
        while i < self.seen.len()
            invariant
                i <= self.seen@.len(),
                views == self.seen@.map_values(|u: UserId| u@),
                forall|j: int| 0 <= j < i ==> views[j] != user@.id,
            decreases self.seen.len() - i,
        {
            if self.seen[i] == *user.id() {
                assert(views[i as int] == user@.id);
                return false;
            }
            i = i + 1;
        }
        proof {
            if views.contains(user@.id) {
                let j = choose|j: int| 0 <= j < views.len() && views[j] == user@.id;
            }
        }
        true
    }

    /// Count one pruned user.
    pub fn record_removed(&mut self)
        requires
            old(self).counts().removed < usize::MAX,
        ensures
            final(self).seen_ids() == old(self).seen_ids(),
            final(self).counts() == (SyncSummary {
                removed: (old(self).counts().removed + 1) as usize,
                ..old(self).counts()
            }),
    {
        self.summary.removed = self.summary.removed + 1;
    }

    /// The counts of what the pass changed.
    pub fn summary(&self) -> (r: SyncSummary)
        ensures
            r == self.counts(),
    {
        self.summary
    }
}

/// Storage, as the pass sees it, and what the pass counted so far.
pub struct PassModel {
    pub store: Map<Seq<char>, UserView>,
    pub added: nat,
    pub updated: nat,
}

/// What storage holds under `id`.
pub open spec fn stored(store: Map<Seq<char>, UserView>, id: Seq<char>) -> Option<UserView> {
    if store.dom().contains(id) {
        Some(store[id])
    } else {
        None
    }
}

/// The pass after one more directory entry: its write, if any, lands in
/// storage and is counted as an addition or an update.
pub open spec fn sync_entry(m: PassModel, e: DirectoryEntry) -> PassModel {
    match entry_write(stored(m.store, e.id@), e) {
        None => m,
        Some(u) => if m.store.dom().contains(e.id@) {
            PassModel { store: m.store.insert(e.id@, u), updated: m.updated + 1, ..m }
        } else {
            PassModel { store: m.store.insert(e.id@, u), added: m.added + 1, ..m }
        },
    }
}

/// The pass after `entries`, in order, starting from `store`.
pub open spec fn sync_entries(store: Map<Seq<char>, UserView>, entries: Seq<DirectoryEntry>) -> PassModel
    decreases entries.len(),
{
    if entries.len() == 0 {
        PassModel { store, added: 0, updated: 0 }
    } else {
        sync_entry(sync_entries(store, entries.drop_last()), entries.last())
    }
}

/// The ids the directory listed.
pub open spec fn listed_ids(entries: Seq<DirectoryEntry>) -> Set<Seq<char>>
    decreases entries.len(),
{
    if entries.len() == 0 {
        Set::empty()
    } else {
        listed_ids(entries.drop_last()).insert(entries.last().id@)
    }
}

/// Whether no id is listed twice.
pub open spec fn distinct_ids(entries: Seq<DirectoryEntry>) -> bool {
    forall|i: int, j: int|
        0 <= i < j < entries.len() ==> (#[trigger] entries[i]).id@ != (#[trigger] entries[j]).id@
}

/// Whether every stored user sits under their own id.
pub open spec fn keyed_by_id(store: Map<Seq<char>, UserView>) -> bool {
    forall|k: Seq<char>| store.dom().contains(k) ==> (#[trigger] store[k]).id == k
}

/// How many entries name a stored user whose username or marker differs.
pub open spec fn changed_entries(store: Map<Seq<char>, UserView>, entries: Seq<DirectoryEntry>) -> nat
    decreases entries.len(),
{
    if entries.len() == 0 {
        0
    } else {
        let e = entries.last();
        changed_entries(store, entries.drop_last()) + if store.dom().contains(e.id@) && !(
        store[e.id@].username == e.username@ && store[e.id@].marker == e.marker) {
            1nat
        } else {
            0nat
        }
    }
}

/// What a listed user is after the pass: the entry's username and marker,
/// with the department storage held for them, or none for a new user.
pub open spec fn synced_user(store: Map<Seq<char>, UserView>, e: DirectoryEntry) -> UserView {
    entry_user(
        e,
        if store.dom().contains(e.id@) {
            store[e.id@].department
        } else {
            None
        },
    )
}

proof fn lemma_sync_entries(store: Map<Seq<char>, UserView>, entries: Seq<DirectoryEntry>)
    requires
        store.dom().finite(),
        keyed_by_id(store),
        distinct_ids(entries),
    ensures
        listed_ids(entries).finite(),
        forall|id: Seq<char>| #[trigger] listed_ids(entries).contains(id) <==> exists|i: int|
            0 <= i < entries.len() && entries[i].id@ == id,
        sync_entries(store, entries).store.dom() == store.dom().union(listed_ids(entries)),
        forall|id: Seq<char>|
            store.dom().contains(id) && !listed_ids(entries).contains(id) ==> #[trigger] sync_entries(
                store,
                entries,
            ).store[id] == store[id],
        forall|i: int|
            0 <= i < entries.len() ==> sync_entries(store, entries).store[(#[trigger] entries[i]).id@]
                == synced_user(store, entries[i]),
        sync_entries(store, entries).added == listed_ids(entries).difference(store.dom()).len(),
        sync_entries(store, entries).updated == changed_entries(store, entries),
    decreases entries.len(),
{
    if entries.len() == 0 {
        assert(listed_ids(entries) =~= Set::<Seq<char>>::empty());
        assert(store.dom().union(listed_ids(entries)) =~= store.dom());
        assert(listed_ids(entries).difference(store.dom()) =~= Set::<Seq<char>>::empty());
    } else {
        let prev = entries.drop_last();
        let e = entries.last();
        let k = entries.len() - 1;
        assert forall|i: int, j: int| 0 <= i < j < prev.len() implies (#[trigger] prev[i]).id@
            != (#[trigger] prev[j]).id@ by {
            assert(prev[i] == entries[i] && prev[j] == entries[j]);
        }
        lemma_sync_entries(store, prev);
        let m = sync_entries(store, prev);
        let ids = listed_ids(prev);
        assert(!ids.contains(e.id@)) by {
            if ids.contains(e.id@) {
                let i = choose|i: int| 0 <= i < prev.len() && prev[i].id@ == e.id@;
                assert(entries[i] == prev[i]);
                assert(entries[k] == e);
            }
        }
        assert forall|id: Seq<char>| #[trigger] listed_ids(entries).contains(id) <==> exists|i: int|
            0 <= i < entries.len() && entries[i].id@ == id by {
            if listed_ids(entries).contains(id) {
                if id == e.id@ {
                    assert(entries[k].id@ == id);
                } else {
                    let i = choose|i: int| 0 <= i < prev.len() && prev[i].id@ == id;
                    assert(entries[i] == prev[i]);
                }
            }
            if exists|i: int| 0 <= i < entries.len() && entries[i].id@ == id {
                let i = choose|i: int| 0 <= i < entries.len() && entries[i].id@ == id;
                if i < k {
                    assert(prev[i] == entries[i]);
                }
            }
        }
        let found = stored(m.store, e.id@);
        assert(found == stored(store, e.id@));
        let after = sync_entries(store, entries);
        assert(after == sync_entry(m, e));
        assert(after.store.dom() =~= store.dom().union(listed_ids(entries)));
        assert forall|id: Seq<char>|
            store.dom().contains(id) && !listed_ids(entries).contains(id) implies #[trigger] after.store[id]
                == store[id] by {
            assert(id != e.id@);
        }
        assert forall|i: int| 0 <= i < entries.len() implies after.store[(#[trigger] entries[i]).id@]
            == synced_user(store, entries[i]) by {
            if i < k {
                assert(prev[i] == entries[i]);
                assert(entries[i].id@ != e.id@);
                assert(m.store[prev[i].id@] == synced_user(store, prev[i]));
            } else {
                assert(entries[i] == e);
                if store.dom().contains(e.id@) {
                    assert(store[e.id@].id == e.id@);
                }
            }
        }
        let diff_before = ids.difference(store.dom());
        let diff_after = listed_ids(entries).difference(store.dom());
        if store.dom().contains(e.id@) {
            assert(diff_after =~= diff_before);
        } else {
            assert(diff_after =~= diff_before.insert(e.id@));
            assert(!diff_before.contains(e.id@));
        }
    }
}

/// One directory sync pass, over storage keyed by user id and a listing that
/// names each id once: afterwards storage holds exactly the listed users,
/// each with the directory's username and marker and the department it held
/// before (none for a new user); the additions are the listed ids storage
/// lacked, the updates the listed users whose username or marker changed,
/// and the removals the stored ids the directory no longer lists.
pub proof fn lemma_sync_pass(store: Map<Seq<char>, UserView>, entries: Seq<DirectoryEntry>)
    requires
        store.dom().finite(),
        keyed_by_id(store),
        distinct_ids(entries),
    ensures
        ({
            let m = sync_entries(store, entries);
            let listed = listed_ids(entries);
            let after = m.store.restrict(listed);
            &&& after.dom() == listed
            &&& forall|i: int|
                0 <= i < entries.len() ==> after[(#[trigger] entries[i]).id@] == synced_user(
                    store,
                    entries[i],
                )
            &&& m.added == listed.difference(store.dom()).len()
            &&& m.updated == changed_entries(store, entries)
            &&& m.store.dom().difference(listed) == store.dom().difference(listed)
            &&& m.store.dom().difference(listed).len() == store.dom().difference(listed).len()
        }),
{
    lemma_sync_entries(store, entries);
    let m = sync_entries(store, entries);
    let listed = listed_ids(entries);
    assert(m.store.restrict(listed).dom() =~= listed);
    assert forall|i: int| 0 <= i < entries.len() implies m.store.restrict(listed)[(
    #[trigger] entries[i]).id@] == synced_user(store, entries[i]) by {
        assert(listed.contains(entries[i].id@));
    }
    assert(m.store.dom().difference(listed) =~= store.dom().difference(listed));
}

} // verus!
