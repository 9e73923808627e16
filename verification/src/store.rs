//! The backing key-value store and the two storage namespaces.
//!
//! A [`Store`] keeps one string value per string key. It is deliberately
//! simple — an association list with distinct keys — but its contract is the
//! full key-value interface the cells rely on: every call is fallible, a
//! store can be unreachable, and a write can be refused once the quota is
//! spent. Its abstract content is a `Map<Seq<char>, Seq<char>>`.
//!
//! [`Stores`] bundles the two logical namespaces an application sees: a
//! durable one and a per-session one. [`StorageKind`] selects between them.

use vstd::prelude::*;

verus! {

use crate::errors::StorageError;

/// Do all entries of the list carry distinct keys?
spec fn keys_unique(s: Seq<(String, String)>) -> bool {
    forall|i: int, j: int| 0 <= i < j < s.len() ==> s[i].0@ != s[j].0@
}

/// The map held by an association list; later entries would shadow earlier
/// ones, though a well-formed store never has two entries for one key.
spec fn entries_map(s: Seq<(String, String)>) -> Map<Seq<char>, Seq<char>>
    decreases s.len(),
{
    if s.len() == 0 {
        Map::empty()
    } else {
        entries_map(s.drop_last()).insert(s.last().0@, s.last().1@)
    }
}

/// A key is in the map exactly when some entry carries it.
proof fn lemma_entries_map_contains(s: Seq<(String, String)>, k: Seq<char>)
    ensures
        entries_map(s).contains_key(k) <==> exists|i: int| 0 <= i < s.len() && s[i].0@ == k,
    decreases s.len(),
{
    if s.len() > 0 {
        let dl = s.drop_last();
        lemma_entries_map_contains(dl, k);
        if s.last().0@ == k {
            assert(s[s.len() - 1].0@ == k);
        } else {
            if entries_map(s).contains_key(k) {
                let i = choose|i: int| 0 <= i < dl.len() && dl[i].0@ == k;
                assert(s[i].0@ == k);
            }
            if exists|i: int| 0 <= i < s.len() && s[i].0@ == k {
                let i = choose|i: int| 0 <= i < s.len() && s[i].0@ == k;
                assert(dl[i].0@ == k);
            }
        }
    }
}

/// With distinct keys, the map sends each entry's key to that entry's value.
proof fn lemma_entries_map_value(s: Seq<(String, String)>, i: int)
    requires
        keys_unique(s),
        0 <= i < s.len(),
    ensures
        entries_map(s).contains_key(s[i].0@),
        entries_map(s)[s[i].0@] == s[i].1@,
    decreases s.len(),
{
    let dl = s.drop_last();
    if i < s.len() - 1 {
        assert(keys_unique(dl));
        lemma_entries_map_value(dl, i);
        assert(s[i].0@ != s.last().0@);
    }
}

/// With distinct keys, the map has exactly one key per entry.
proof fn lemma_entries_map_len(s: Seq<(String, String)>)
    requires
        keys_unique(s),
    ensures
        entries_map(s).dom().finite(),
        entries_map(s).dom().len() == s.len(),
    decreases s.len(),
{
    if s.len() > 0 {
        let dl = s.drop_last();
        assert(keys_unique(dl));
        lemma_entries_map_len(dl);
        lemma_entries_map_contains(dl, s.last().0@);
        assert forall|i: int| 0 <= i < dl.len() implies #[trigger] dl[i].0@ != s.last().0@ by {
            assert(s[i].0@ != s[s.len() - 1].0@);
        }
        assert(!entries_map(dl).contains_key(s.last().0@));
        assert(entries_map(s).dom() =~= entries_map(dl).dom().insert(s.last().0@));
    }
}

/// Removing the entry at `i` removes exactly its key from the map.
proof fn lemma_entries_map_remove(s: Seq<(String, String)>, i: int)
    requires
        keys_unique(s),
        0 <= i < s.len(),
    ensures
        entries_map(s.remove(i)) == entries_map(s).remove(s[i].0@),
    decreases s.len(),
{
    let k = s[i].0@;
    let dl = s.drop_last();
    if i == s.len() - 1 {
        assert(s.remove(i) =~= dl);
        lemma_entries_map_contains(dl, k);
        assert forall|j: int| 0 <= j < dl.len() implies #[trigger] dl[j].0@ != k by {
            assert(s[j].0@ == dl[j].0@ && s[j].0@ != s[s.len() - 1].0@);
        }
        assert(!entries_map(dl).contains_key(k));
        assert(entries_map(dl) =~= entries_map(s).remove(k));
    } else {
        assert(keys_unique(dl));
        lemma_entries_map_remove(dl, i);
        let r = s.remove(i);
        assert(r.len() == s.len() - 1);
        assert(r.last() == s.last());
        assert(r.drop_last() =~= dl.remove(i));
        assert(k != s.last().0@);
        assert(entries_map(r) == entries_map(dl.remove(i)).insert(s.last().0@, s.last().1@));
        assert(entries_map(dl).remove(k).insert(s.last().0@, s.last().1@) =~= entries_map(
            dl,
        ).insert(s.last().0@, s.last().1@).remove(k));
    }
}

/// One key-value namespace.
///
/// Besides its entries a store knows whether it can currently be reached at
/// all and how many entries it has room for, and it keeps ghost tallies of
/// the value lookups and the write attempts made against it, so that callers
/// can state — and tests can observe — which operations touch it.
pub struct Store {
    entries: Vec<(String, String)>,
    available: bool,
    capacity: usize,
    lookups: Ghost<nat>,
    writes: Ghost<nat>,
}

impl View for Store {
    type V = Map<Seq<char>, Seq<char>>;

    closed spec fn view(&self) -> Map<Seq<char>, Seq<char>> {
        entries_map(self.entries@)
    }
}

impl Store {
    /// Can the store currently be reached?
    pub closed spec fn is_available(&self) -> bool {
        self.available
    }

    /// How many entries the store has room for.
    pub closed spec fn quota(&self) -> nat {
        self.capacity as nat
    }

    /// How many value lookups have been made against this store.
    pub closed spec fn lookups(&self) -> nat {
        self.lookups@
    }

    /// How many write attempts (sets and removals) have been made against
    /// this store.
    pub closed spec fn writes(&self) -> nat {
        self.writes@
    }

    /// Internal well-formedness: one entry per key, and never more entries
    /// than the quota allows.
    pub closed spec fn wf(&self) -> bool {
        &&& keys_unique(self.entries@)
        &&& self.entries@.len() <= self.capacity
    }

    /// Everything but the tallies is unchanged.
    pub open spec fn content_unchanged(pre: Store, post: Store) -> bool {
        &&& post@ == pre@
        &&& post.is_available() == pre.is_available()
        &&& post.quota() == pre.quota()
    }

    /// The store answered one value lookup and was otherwise untouched.
    pub open spec fn reads_once(pre: Store, post: Store) -> bool {
        &&& Store::content_unchanged(pre, post)
        &&& post.lookups() == pre.lookups() + 1
        &&& post.writes() == pre.writes()
    }

    /// An empty, reachable store with room for `capacity` entries.
    pub fn with_quota(capacity: usize) -> (r: Store)
        ensures
            r.wf(),
            r@ == Map::<Seq<char>, Seq<char>>::empty(),
            r.is_available(),
            r.quota() == capacity,
            r.lookups() == 0,
            r.writes() == 0,
    {
        Store {
            entries: Vec::new(),
            available: true,
            capacity,
            lookups: Ghost(0),
            writes: Ghost(0),
        }
    }

    /// An empty, reachable store with no practical bound on its entries.
    pub fn new() -> (r: Store)
        ensures
            r.wf(),
            r@ == Map::<Seq<char>, Seq<char>>::empty(),
            r.is_available(),
            r.quota() == usize::MAX,
            r.lookups() == 0,
            r.writes() == 0,
    {
        Store::with_quota(usize::MAX)
    }

    /// An empty store that cannot be reached: every operation on it fails
    /// with [`StorageError::StoreUnavailable`].
    pub fn unavailable() -> (r: Store)
        ensures
            r.wf(),
            r@ == Map::<Seq<char>, Seq<char>>::empty(),
            !r.is_available(),
            r.lookups() == 0,
            r.writes() == 0,
    {
        Store {
            entries: Vec::new(),
            available: false,
            capacity: usize::MAX,
            lookups: Ghost(0),
            writes: Ghost(0),
        }
    }

    /// The index of the entry for `key`, if any.
    fn find(&self, key: &String) -> (r: Option<usize>)
        requires
            self.wf(),
        ensures
            match r {
                Some(i) => i < self.entries@.len() && self.entries@[i as int].0@ == key@,
                None => forall|i: int| 0 <= i < self.entries@.len() ==> self.entries@[i].0@ != key@,
            },
    {
        let n = self.entries.len();
        let mut i: usize = 0;
        while i < n
            invariant
                n == self.entries@.len(),
                i <= n,
                forall|j: int| 0 <= j < i ==> self.entries@[j].0@ != key@,
            decreases n - i,
        {
            if self.entries[i].0 == *key {
                return Some(i);
            }
            i += 1;
        }
        None
    }

    /// Does the store hold an entry for `key`? Answers `false` when the
    /// store cannot be reached. A pure query: no lookup is tallied.
    pub fn contains_key(&self, key: &str) -> (r: bool)
        requires
            self.wf(),
        ensures
            r == (self.is_available() && self@.contains_key(key@)),
    {
        if !self.available {
            return false;
        }
        let owned = key.to_owned();
        let found = self.find(&owned);
        proof {
            lemma_entries_map_contains(self.entries@, key@);
        }
        found.is_some()
    }

    /// Fetch the value stored under `key`.
    pub fn get_value(&mut self, key: &str) -> (r: Result<Option<String>, StorageError>)
        requires
            old(self).wf(),
        ensures
            final(self).wf(),
            Store::content_unchanged(*old(self), *final(self)),
            final(self).lookups() == old(self).lookups() + 1,
            final(self).writes() == old(self).writes(),
            match r {
                Ok(Some(v)) => old(self).is_available() && old(self)@.contains_key(key@) && v@
                    == old(self)@[key@],
                Ok(None) => old(self).is_available() && !old(self)@.contains_key(key@),
                Err(e) => !old(self).is_available() && e == StorageError::StoreUnavailable,
            },
    {
        proof {
            self.lookups@ = self.lookups@ + 1;
        }
        if !self.available {
            return Err(StorageError::StoreUnavailable);
        }
        let owned = key.to_owned();
        let found = self.find(&owned);
        proof {
            lemma_entries_map_contains(self.entries@, key@);
        }
        match found {
            Some(i) => {
                proof {
                    lemma_entries_map_value(self.entries@, i as int);
                }
                Ok(Some(self.entries[i].1.clone()))
            },
            None => Ok(None),
        }
    }

    /// Store `value` under `key`, overwriting any earlier entry. Refused when
    /// the store cannot be reached, and when `key` is new but the quota is
    /// already spent.
    pub fn set_value(&mut self, key: &str, value: String) -> (r: Result<(), StorageError>)
        requires
            old(self).wf(),
        ensures
            final(self).wf(),
            final(self).is_available() == old(self).is_available(),
            final(self).quota() == old(self).quota(),
            final(self).lookups() == old(self).lookups(),
            final(self).writes() == old(self).writes() + 1,
            match r {
                Ok(()) => {
                    &&& old(self).is_available()
                    &&& (old(self)@.contains_key(key@) || old(self)@.dom().len() < old(
                        self,
                    ).quota())
                    &&& final(self)@ == old(self)@.insert(key@, value@)
                },
                Err(StorageError::StoreUnavailable) => !old(self).is_available() && final(self)@
                    == old(self)@,
                Err(StorageError::StoreWriteFailure) => {
                    &&& old(self).is_available()
                    &&& !old(self)@.contains_key(key@)
                    &&& old(self)@.dom().len() >= old(self).quota()
                    &&& final(self)@ == old(self)@
                },
                Err(_) => false,
            },
    {
        proof {
            self.writes@ = self.writes@ + 1;
        }
        if !self.available {
            return Err(StorageError::StoreUnavailable);
        }
        let owned = key.to_owned();
        let found = self.find(&owned);
        proof {
            lemma_entries_map_contains(self.entries@, key@);
            lemma_entries_map_len(self.entries@);
        }
        match found {
            Some(i) => {
                let ghost pre = self.entries@;
                proof {
                    lemma_entries_map_remove(pre, i as int);
                }
                self.entries.remove(i);
                proof {
                    assert(keys_unique(self.entries@)) by {
                        assert(forall|a: int, b: int|
                            0 <= a < b < self.entries@.len() ==> self.entries@[a].0@
                                != self.entries@[b].0@) by {
                            assert(forall|a: int|
                                0 <= a < self.entries@.len() ==> #[trigger] self.entries@[a]
                                    == if a < i { pre[a] } else { pre[a + 1] });
                        }
                    }
                    lemma_entries_map_contains(self.entries@, key@);
                }
                self.entries.push((owned, value));
                proof {
                    let post = self.entries@;
                    assert(post.drop_last() =~= pre.remove(i as int));
                    assert(self@ =~= old(self)@.insert(key@, value@));
                }
                Ok(())
            },
            None => {
                if self.entries.len() >= self.capacity {
                    return Err(StorageError::StoreWriteFailure);
                }
                let ghost pre = self.entries@;
                self.entries.push((owned, value));
                proof {
                    assert(self.entries@.drop_last() =~= pre);
                    assert(self@ =~= old(self)@.insert(key@, value@));
                }
                Ok(())
            },
        }
    }

    /// Drop the entry for `key`, if there is one. Refused only when the
    /// store cannot be reached.
    pub fn remove_value(&mut self, key: &str) -> (r: Result<(), StorageError>)
        requires
            old(self).wf(),
        ensures
            final(self).wf(),
            final(self).is_available() == old(self).is_available(),
            final(self).quota() == old(self).quota(),
            final(self).lookups() == old(self).lookups(),
            final(self).writes() == old(self).writes() + 1,
            match r {
                Ok(()) => old(self).is_available() && final(self)@ == old(self)@.remove(key@),
                Err(e) => {
                    &&& !old(self).is_available()
                    &&& e == StorageError::StoreUnavailable
                    &&& final(self)@ == old(self)@
                },
            },
    {
        proof {
            self.writes@ = self.writes@ + 1;
        }
        if !self.available {
            return Err(StorageError::StoreUnavailable);
        }
        let owned = key.to_owned();
        let found = self.find(&owned);
        proof {
            lemma_entries_map_contains(self.entries@, key@);
        }
        match found {
            Some(i) => {
                let ghost pre = self.entries@;
                proof {
                    lemma_entries_map_remove(pre, i as int);
                }
                self.entries.remove(i);
                proof {
                    assert(keys_unique(self.entries@)) by {
                        assert(forall|a: int|
                            0 <= a < self.entries@.len() ==> #[trigger] self.entries@[a]
                                == if a < i { pre[a] } else { pre[a + 1] });
                    }
                }
                Ok(())
            },
            None => {
                proof {
                    assert(self@.remove(key@) =~= self@);
                }
                Ok(())
            },
        }
    }
}

/// The two namespaces an application sees: durable data in `local`, data for
/// the running session only in `session`.
pub struct Stores {
    /// The durable namespace: what it holds outlives the application.
    pub local: Store,
    /// The ephemeral namespace: what it holds ends with the session.
    pub session: Store,
}

impl Stores {
    /// Are both namespaces well-formed?
    pub open spec fn wf(&self) -> bool {
        self.local.wf() && self.session.wf()
    }

    /// Two empty, reachable namespaces.
    pub fn new() -> (r: Stores)
        ensures
            r.wf(),
            r.local@ == Map::<Seq<char>, Seq<char>>::empty(),
            r.session@ == Map::<Seq<char>, Seq<char>>::empty(),
            r.local.is_available(),
            r.session.is_available(),
            r.local.quota() == usize::MAX,
            r.session.quota() == usize::MAX,
            r.local.lookups() == 0,
            r.session.lookups() == 0,
            r.local.writes() == 0,
            r.session.writes() == 0,
    {
        Stores { local: Store::new(), session: Store::new() }
    }
}

/// Which of the two namespaces a piece of data lives in.
#[derive(Clone, Copy, Debug, PartialEq, Eq, Structural)]
pub enum StorageKind {
    /// Durable data: kept across sessions.
    Local,
    /// Per-session data: gone when the session ends.
    Session,
}

impl StorageKind {
    /// The namespace this kind selects.
    pub open spec fn selected(self, stores: Stores) -> Store {
        match self {
            StorageKind::Local => stores.local,
            StorageKind::Session => stores.session,
        }
    }

    /// The namespace this kind leaves alone.
    pub open spec fn unselected(self, stores: Stores) -> Store {
        match self {
            StorageKind::Local => stores.session,
            StorageKind::Session => stores.local,
        }
    }

    /// Fetch the value stored under `key` in this kind's namespace.
    pub fn get_item(&self, stores: &mut Stores, key: &str) -> (r: Result<
        Option<String>,
        StorageError,
    >)
        requires
            old(stores).wf(),
        ensures
            final(stores).wf(),
            Store::reads_once(self.selected(*old(stores)), self.selected(*final(stores))),
            self.unselected(*final(stores)) == self.unselected(*old(stores)),
            ({
                let st = self.selected(*old(stores));
                match r {
                    Ok(Some(v)) => st.is_available() && st@.contains_key(key@) && v@ == st@[key@],
                    Ok(None) => st.is_available() && !st@.contains_key(key@),
                    Err(e) => !st.is_available() && e == StorageError::StoreUnavailable,
                }
            }),
    {
        match self {
            StorageKind::Local => stores.local.get_value(key),
            StorageKind::Session => stores.session.get_value(key),
        }
    }

    /// Store `value` under `key` in this kind's namespace.
    pub fn set_item(&self, stores: &mut Stores, key: &str, value: String) -> (r: Result<
        (),
        StorageError,
    >)
        requires
            old(stores).wf(),
        ensures
            final(stores).wf(),
            self.unselected(*final(stores)) == self.unselected(*old(stores)),
            ({
                let pre = self.selected(*old(stores));
                let post = self.selected(*final(stores));
                &&& post.is_available() == pre.is_available()
                &&& post.quota() == pre.quota()
                &&& post.lookups() == pre.lookups()
                &&& post.writes() == pre.writes() + 1
                &&& match r {
                    Ok(()) => {
                        &&& pre.is_available()
                        &&& (pre@.contains_key(key@) || pre@.dom().len() < pre.quota())
                        &&& post@ == pre@.insert(key@, value@)
                    },
                    Err(StorageError::StoreUnavailable) => !pre.is_available() && post@ == pre@,
                    Err(StorageError::StoreWriteFailure) => {
                        &&& pre.is_available()
                        &&& !pre@.contains_key(key@)
                        &&& pre@.dom().len() >= pre.quota()
                        &&& post@ == pre@
                    },
                    Err(_) => false,
                }
            }),
    {
        match self {
            StorageKind::Local => stores.local.set_value(key, value),
            StorageKind::Session => stores.session.set_value(key, value),
        }
    }

    /// Drop the entry for `key` from this kind's namespace.
    pub fn remove_item(&self, stores: &mut Stores, key: &str) -> (r: Result<(), StorageError>)
        requires
            old(stores).wf(),
        ensures
            final(stores).wf(),
            self.unselected(*final(stores)) == self.unselected(*old(stores)),
            ({
                let pre = self.selected(*old(stores));
                let post = self.selected(*final(stores));
                &&& post.is_available() == pre.is_available()
                &&& post.quota() == pre.quota()
                &&& post.lookups() == pre.lookups()
                &&& post.writes() == pre.writes() + 1
                &&& match r {
                    Ok(()) => pre.is_available() && post@ == pre@.remove(key@),
                    Err(e) => {
                        &&& !pre.is_available()
                        &&& e == StorageError::StoreUnavailable
                        &&& post@ == pre@
                    },
                }
            }),
    {
        match self {
            StorageKind::Local => stores.local.remove_value(key),
            StorageKind::Session => stores.session.remove_value(key),
        }
    }
}

} // verus!
