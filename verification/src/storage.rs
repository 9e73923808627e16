//! The lazy persistent cell: one value, one key, one namespace.
//!
//! A [`StorageData`] owns a cache slot for a value stored under a fixed key.
//! The slot is filled at most once per generation — on the first read, from
//! the store if the key is present, from the default supplier otherwise —
//! and repeated reads reuse it. Handing out a mutable reference marks the
//! cell dirty; [`StorageData::save`] writes the value back, but skips the
//! write when the cell is clean and the store already has the key. When the
//! owner is done with the cell, [`StorageData::finish`] makes a best-effort
//! save (errors are swallowed, as nobody is left to observe them) and clears
//! the slot.

use vstd::prelude::*;

verus! {

use vstd::pervasive::unreached;

use crate::codec::Codec;
use crate::errors::StorageError;
use crate::store::StorageKind;
use crate::store::Store;
use crate::store::Stores;

/// Fetch the value under `key` in the chosen namespace and decode it; fall
/// back to the default supplier when the store errs or lacks the key.
///
/// Only a failure to decode an existing entry is reported: a missing key or
/// an unreachable store silently yields the default, as the read path of a
/// cell never surfaces store trouble.
pub fn get_data_with<V: View, C: Codec<V>, D: Fn() -> V>(
    storage_kind: &StorageKind,
    stores: &mut Stores,
    key: &str,
    default: &D,
    codec: &C,
) -> (r: Result<V, StorageError>)
    requires
        old(stores).wf(),
        call_requires(*default, ()),
    ensures
        final(stores).wf(),
        Store::reads_once(
            storage_kind.selected(*old(stores)),
            storage_kind.selected(*final(stores)),
        ),
        storage_kind.unselected(*final(stores)) == storage_kind.unselected(*old(stores)),
        ({
            let st = storage_kind.selected(*old(stores));
            if st.is_available() && st@.contains_key(key@) {
                match codec.dec_spec(st@[key@]) {
                    Some(w) => r matches Ok(v) && v@ == w,
                    None => r matches Err(e) && e == StorageError::DecodeFailure,
                }
            } else {
                r matches Ok(v) && call_ensures(*default, (), v)
            }
        }),
{
    match storage_kind.get_item(stores, key) {
        Ok(Some(s)) => match codec.decode(s.as_str()) {
            Ok(v) => Ok(v),
            Err(e) => Err(e),
        },
        _ => Ok(default()),
    }
}

/// Encode `value` and store it under `key` in the chosen namespace.
pub fn set_data<V: View, C: Codec<V>>(
    storage_kind: &StorageKind,
    stores: &mut Stores,
    key: &str,
    value: &V,
    codec: &C,
) -> (r: Result<(), StorageError>)
    requires
        old(stores).wf(),
    ensures
        final(stores).wf(),
        write_step(
            *storage_kind,
            key@,
            codec.enc_spec(value@),
            *old(stores),
            *final(stores),
            r,
        ),
{
    let encoded = match codec.encode(value) {
        Ok(s) => s,
        Err(e) => {
            return Err(e);
        },
    };
    storage_kind.set_item(stores, key, encoded)
}

/// What one eager write attempt does to the stores and reports back: nothing
/// at all when encoding fails, otherwise one write attempt against the
/// selected namespace, which succeeds exactly when that store is reachable
/// and either already has the key or still has room for it.
pub open spec fn write_step(
    kind: StorageKind,
    key: Seq<char>,
    enc: Option<Seq<char>>,
    pre: Stores,
    post: Stores,
    r: Result<(), StorageError>,
) -> bool {
    let st = kind.selected(pre);
    let st2 = kind.selected(post);
    match enc {
        None => post == pre && (r matches Err(e) && e == StorageError::EncodeFailure),
        Some(s) => {
            &&& kind.unselected(post) == kind.unselected(pre)
            &&& st2.is_available() == st.is_available()
            &&& st2.quota() == st.quota()
            &&& st2.lookups() == st.lookups()
            &&& st2.writes() == st.writes() + 1
            &&& if !st.is_available() {
                r matches Err(e) && e == StorageError::StoreUnavailable && st2@ == st@
            } else if st@.contains_key(key) || st@.dom().len() < st.quota() {
                r is Ok && st2@ == st@.insert(key, s)
            } else {
                r matches Err(e) && e == StorageError::StoreWriteFailure && st2@ == st@
            }
        },
    }
}

/// What a deferred (finalize-time) save does to the stores, once the value
/// to persist has been resolved to one whose encoding is `enc`: possibly one
/// lookup (when the cache slot had to be filled first), then one write
/// attempt — unless encoding failed, in which case the stores keep their
/// content. The result is not recorded: a deferred save swallows it.
pub open spec fn flush_step(
    kind: StorageKind,
    key: Seq<char>,
    enc: Option<Seq<char>>,
    read_first: bool,
    pre: Stores,
    post: Stores,
) -> bool {
    let st = kind.selected(pre);
    let st2 = kind.selected(post);
    &&& kind.unselected(post) == kind.unselected(pre)
    &&& st2.is_available() == st.is_available()
    &&& st2.quota() == st.quota()
    &&& st2.lookups() == st.lookups() + (if read_first {
        1int
    } else {
        0int
    })
    &&& match enc {
        None => st2@ == st@ && st2.writes() == st.writes(),
        Some(s) => {
            &&& st2.writes() == st.writes() + 1
            &&& if st.is_available() && (st@.contains_key(key) || st@.dom().len() < st.quota()) {
                st2@ == st@.insert(key, s)
            } else {
                st2@ == st@
            }
        },
    }
}

/// Glue between one key of a storage namespace and a typed value.
///
/// Reads go through the cache slot; writes go eagerly to the store and
/// always update the slot; a save is made only when needed. The cell never
/// surfaces errors on the read path: a missing or unreadable entry degrades
/// to the default value, except that a cell which fails hard on decode
/// errors refuses (by precondition) to read over a corrupt entry — use
/// [`StorageData::checked_get`] to observe such corruption as an error.
#[verifier::reject_recursive_types(V)]
#[verifier::reject_recursive_types(C)]
#[verifier::reject_recursive_types(D)]
pub struct StorageData<V: View, C: Codec<V>, D: Fn() -> V> {
    storage_kind: StorageKind,
    key: String,
    value: Option<V>,
    default_value: D,
    codec: C,
    panic_on_cannot_deserialize: bool,
    save_on_drop: bool,
    mutated: bool,
}

impl<V: View, C: Codec<V>, D: Fn() -> V> StorageData<V, C, D> {
    /// The namespace this cell's key lives in.
    pub closed spec fn kind(self) -> StorageKind {
        self.storage_kind
    }

    /// The key this cell reads and writes.
    pub closed spec fn spec_key(self) -> Seq<char> {
        self.key@
    }

    /// The cache slot: `None` until the first access of a generation.
    pub closed spec fn cached(self) -> Option<V> {
        self.value
    }

    /// May the in-memory value differ from the last persisted one?
    pub closed spec fn is_dirty(self) -> bool {
        self.mutated
    }

    /// Does a decode failure refuse the read, rather than fall back to the
    /// default value?
    pub closed spec fn fails_hard(self) -> bool {
        self.panic_on_cannot_deserialize
    }

    /// Will the cell try to save when it is finished?
    pub closed spec fn saves_on_drop(self) -> bool {
        self.save_on_drop
    }

    /// The codec bound to this cell.
    pub closed spec fn spec_codec(self) -> C {
        self.codec
    }

    /// The default-value supplier bound to this cell.
    pub closed spec fn supplier(self) -> D {
        self.default_value
    }

    /// The cell can call its supplier, and a dirty cell always holds a
    /// value — only a mutable access makes it dirty, and that fills the
    /// slot first.
    pub open spec fn wf(self) -> bool {
        &&& call_requires(self.supplier(), ())
        &&& (self.is_dirty() ==> self.cached() is Some)
    }

    /// Same key, namespace, codec, supplier and policy flags.
    pub open spec fn same_setup(self, other: Self) -> bool {
        &&& other.kind() == self.kind()
        &&& other.spec_key() == self.spec_key()
        &&& other.spec_codec() == self.spec_codec()
        &&& other.supplier() == self.supplier()
        &&& other.fails_hard() == self.fails_hard()
        &&& other.saves_on_drop() == self.saves_on_drop()
    }

    /// The store entry a fresh load would see: `Some` exactly when the
    /// selected namespace is reachable and has the key.
    pub open spec fn entry_in(self, stores: Stores) -> Option<Seq<char>> {
        let st = self.kind().selected(stores);
        if st.is_available() && st@.contains_key(self.spec_key()) {
            Some(st@[self.spec_key()])
        } else {
            None
        }
    }

    /// The values a fresh load can leave in the slot: the decoded entry when
    /// there is one and it decodes, a value from the default supplier
    /// otherwise.
    pub open spec fn loads_to(self, stores: Stores, v: V) -> bool {
        match self.entry_in(stores) {
            Some(s) => match self.spec_codec().dec_spec(s) {
                Some(w) => v@ == w,
                None => call_ensures(self.supplier(), (), v),
            },
            None => call_ensures(self.supplier(), (), v),
        }
    }

    /// A hard-failing cell must not be asked to load over an entry that does
    /// not decode.
    pub open spec fn load_is_safe(self, stores: Stores) -> bool {
        self.fails_hard() ==> match self.entry_in(stores) {
            Some(s) => self.spec_codec().dec_spec(s) is Some,
            None => true,
        }
    }

    /// A read is admissible: either the slot is already filled, or a fresh
    /// load cannot hit the refused corrupt-entry case.
    pub open spec fn can_read(self, stores: Stores) -> bool {
        self.cached() is Some || self.load_is_safe(stores)
    }

    /// A save has nothing to do: the cell is clean and the store already has
    /// the key.
    pub open spec fn skip_gate(self, stores: Stores) -> bool {
        let st = self.kind().selected(stores);
        !self.is_dirty() && st.is_available() && st@.contains_key(self.spec_key())
    }

    /// A cell over `key` in the durable namespace, failing hard on decode
    /// errors and saving when finished. Cheap: the store is not touched.
    pub fn new(key: String, default: D, codec: C) -> (r: Self)
        requires
            call_requires(default, ()),
        ensures
            r.wf(),
            r.kind() == StorageKind::Local,
            r.spec_key() == key@,
            r.cached() is None,
            !r.is_dirty(),
            r.fails_hard(),
            r.saves_on_drop(),
            r.spec_codec() == codec,
            r.supplier() == default,
    {
        StorageData {
            storage_kind: StorageKind::Local,
            key,
            value: None,
            default_value: default,
            codec,
            panic_on_cannot_deserialize: true,
            save_on_drop: true,
            mutated: false,
        }
    }

    /// Choose whether the cell saves when it is finished.
    pub fn save_on_drop(self, update_on_drop: bool) -> (r: Self)
        ensures
            r.kind() == self.kind(),
            r.spec_key() == self.spec_key(),
            r.cached() == self.cached(),
            r.is_dirty() == self.is_dirty(),
            r.fails_hard() == self.fails_hard(),
            r.spec_codec() == self.spec_codec(),
            r.supplier() == self.supplier(),
            r.saves_on_drop() == update_on_drop,
            self.wf() ==> r.wf(),
    {
        StorageData { save_on_drop: update_on_drop, ..self }
    }

    /// Choose the namespace the cell's key lives in.
    pub fn with_storage(self, storage_kind: StorageKind) -> (r: Self)
        ensures
            r.kind() == storage_kind,
            r.spec_key() == self.spec_key(),
            r.cached() == self.cached(),
            r.is_dirty() == self.is_dirty(),
            r.fails_hard() == self.fails_hard(),
            r.spec_codec() == self.spec_codec(),
            r.supplier() == self.supplier(),
            r.saves_on_drop() == self.saves_on_drop(),
            self.wf() ==> r.wf(),
    {
        StorageData { storage_kind, ..self }
    }

    /// Put the cell's key in the durable namespace.
    pub fn with_local_storage(self) -> (r: Self)
        ensures
            r.kind() == StorageKind::Local,
            r.spec_key() == self.spec_key(),
            r.cached() == self.cached(),
            r.is_dirty() == self.is_dirty(),
            r.fails_hard() == self.fails_hard(),
            r.spec_codec() == self.spec_codec(),
            r.supplier() == self.supplier(),
            r.saves_on_drop() == self.saves_on_drop(),
            self.wf() ==> r.wf(),
    {
        self.with_storage(StorageKind::Local)
    }

    /// Put the cell's key in the per-session namespace.
    pub fn with_session_storage(self) -> (r: Self)
        ensures
            r.kind() == StorageKind::Session,
            r.spec_key() == self.spec_key(),
            r.cached() == self.cached(),
            r.is_dirty() == self.is_dirty(),
            r.fails_hard() == self.fails_hard(),
            r.spec_codec() == self.spec_codec(),
            r.supplier() == self.supplier(),
            r.saves_on_drop() == self.saves_on_drop(),
            self.wf() ==> r.wf(),
    {
        self.with_storage(StorageKind::Session)
    }

    /// Choose whether a decode failure refuses the read (`true`) or falls
    /// back to the default value (`false`).
    pub fn fail_hard_on_decode_error(self, fail_hard: bool) -> (r: Self)
        ensures
            r.kind() == self.kind(),
            r.spec_key() == self.spec_key(),
            r.cached() == self.cached(),
            r.is_dirty() == self.is_dirty(),
            r.fails_hard() == fail_hard,
            r.spec_codec() == self.spec_codec(),
            r.supplier() == self.supplier(),
            r.saves_on_drop() == self.saves_on_drop(),
            self.wf() ==> r.wf(),
    {
        StorageData { panic_on_cannot_deserialize: fail_hard, ..self }
    }

    /// Replace the codec the cell encodes and decodes with. Allowed only
    /// before the first use: a filled slot may hold a value the old codec
    /// produced.
    pub fn serde_with<C2: Codec<V>>(self, codec: C2) -> (r: StorageData<V, C2, D>)
        requires
            self.cached() is None,
        ensures
            r.kind() == self.kind(),
            r.spec_key() == self.spec_key(),
            r.cached() is None,
            r.is_dirty() == self.is_dirty(),
            r.fails_hard() == self.fails_hard(),
            r.spec_codec() == codec,
            r.supplier() == self.supplier(),
            r.saves_on_drop() == self.saves_on_drop(),
            self.wf() ==> r.wf(),
    {
        StorageData {
            storage_kind: self.storage_kind,
            key: self.key,
            value: None,
            default_value: self.default_value,
            codec,
            panic_on_cannot_deserialize: self.panic_on_cannot_deserialize,
            save_on_drop: self.save_on_drop,
            mutated: self.mutated,
        }
    }

    /// Fill the cache slot if it is empty; report a decode failure instead
    /// of caching when the cell fails hard.
    fn try_resolve(&mut self, stores: &mut Stores) -> (r: Result<(), StorageError>)
        requires
            old(self).wf(),
            old(stores).wf(),
        ensures
            final(self).wf(),
            final(stores).wf(),
            old(self).same_setup(*final(self)),
            final(self).is_dirty() == old(self).is_dirty(),
            match old(self).cached() {
                Some(_) => {
                    &&& *final(self) == *old(self)
                    &&& *final(stores) == *old(stores)
                    &&& r is Ok
                },
                None => {
                    &&& Store::reads_once(
                        old(self).kind().selected(*old(stores)),
                        old(self).kind().selected(*final(stores)),
                    )
                    &&& old(self).kind().unselected(*final(stores)) == old(self).kind().unselected(
                        *old(stores),
                    )
                    &&& match old(self).entry_in(*old(stores)) {
                        Some(s) => match old(self).spec_codec().dec_spec(s) {
                            Some(w) => r is Ok && (final(self).cached() matches Some(v) && v@
                                == w),
                            None => if old(self).fails_hard() {
                                &&& r matches Err(e) && e == StorageError::DecodeFailure
                                &&& final(self).cached() is None
                            } else {
                                &&& r is Ok
                                &&& final(self).cached() matches Some(v) && call_ensures(
                                    old(self).supplier(),
                                    (),
                                    v,
                                )
                            },
                        },
                        None => r is Ok && (final(self).cached() matches Some(v) && call_ensures(
                            old(self).supplier(),
                            (),
                            v,
                        )),
                    }
                },
            },
    {
        if self.value.is_some() {
            return Ok(());
        }
        let loaded = get_data_with(
            &self.storage_kind,
            stores,
            self.key.as_str(),
            &self.default_value,
            &self.codec,
        );
        match loaded {
            Ok(v) => {
                self.value = Some(v);
                Ok(())
            },
            Err(e) => {
                if self.panic_on_cannot_deserialize {
                    return Err(e);
                }
                self.value = Some((self.default_value)());
                Ok(())
            },
        }
    }

    /// The current value: the cached one, else freshly loaded. Does not mark
    /// the cell dirty. A second read without an intervening write or clear
    /// leaves the cell and the stores exactly as they are.
    pub fn get<'a>(&'a mut self, stores: &mut Stores) -> (r: &'a V)
        requires
            old(self).wf(),
            old(stores).wf(),
            old(self).can_read(*old(stores)),
        ensures
            final(self).wf(),
            final(stores).wf(),
            old(self).same_setup(*final(self)),
            final(self).is_dirty() == old(self).is_dirty(),
            final(self).cached() == Some(*r),
            match old(self).cached() {
                Some(v) => *r == v && *final(self) == *old(self) && *final(stores) == *old(stores),
                None => {
                    &&& Store::reads_once(
                        old(self).kind().selected(*old(stores)),
                        old(self).kind().selected(*final(stores)),
                    )
                    &&& old(self).kind().unselected(*final(stores)) == old(self).kind().unselected(
                        *old(stores),
                    )
                    &&& old(self).loads_to(*old(stores), *r)
                },
            },
    {
        let _ = self.try_resolve(stores);
        match &self.value {
            Some(v) => v,
            None => unreached(),
        }
    }

    /// Like [`StorageData::get`], but a hard-failing cell over a corrupt
    /// entry reports the decode failure instead of being refused up front.
    pub fn checked_get<'a>(&'a mut self, stores: &mut Stores) -> (r: Result<&'a V, StorageError>)
        requires
            old(self).wf(),
            old(stores).wf(),
        ensures
            final(self).wf(),
            final(stores).wf(),
            old(self).same_setup(*final(self)),
            final(self).is_dirty() == old(self).is_dirty(),
            match r {
                Ok(v) => {
                    &&& final(self).cached() == Some(*v)
                    &&& match old(self).cached() {
                        Some(w) => *v == w && *final(stores) == *old(stores),
                        None => old(self).loads_to(*old(stores), *v),
                    }
                },
                Err(e) => {
                    &&& e == StorageError::DecodeFailure
                    &&& old(self).fails_hard()
                    &&& old(self).cached() is None
                    &&& final(self).cached() is None
                    &&& (old(self).entry_in(*old(stores)) matches Some(s) && old(
                        self,
                    ).spec_codec().dec_spec(s) is None)
                },
            },
    {
        match self.try_resolve(stores) {
            Err(e) => Err(e),
            Ok(()) => Ok(self.get(stores)),
        }
    }

    /// The current value, for mutation: loads like [`StorageData::get`],
    /// then marks the cell dirty — the cell cannot know whether the caller
    /// will really write through the reference, so it marks pessimistically.
    pub fn get_mut<'a>(&'a mut self, stores: &mut Stores) -> (r: &'a mut V)
        requires
            old(self).wf(),
            old(stores).wf(),
            old(self).can_read(*old(stores)),
        ensures
            final(self).wf(),
            final(stores).wf(),
            old(self).same_setup(*final(self)),
            final(self).is_dirty(),
            final(self).cached() == Some(*final(r)),
            match old(self).cached() {
                Some(v) => *r == v && *final(stores) == *old(stores),
                None => {
                    &&& Store::reads_once(
                        old(self).kind().selected(*old(stores)),
                        old(self).kind().selected(*final(stores)),
                    )
                    &&& old(self).kind().unselected(*final(stores)) == old(self).kind().unselected(
                        *old(stores),
                    )
                    &&& old(self).loads_to(*old(stores), *r)
                },
            },
    {
        let _ = self.try_resolve(stores);
        self.mutated = true;
        match &mut self.value {
            Some(v) => v,
            None => unreached(),
        }
    }

    /// Replace the value: encode and write it to the store right away, and
    /// update the cache slot whether or not the write went through — later
    /// reads see the new value even if persistence failed, and a failed
    /// write can be retried with [`StorageData::save`].
    pub fn set(&mut self, stores: &mut Stores, value: V) -> (r: Result<(), StorageError>)
        requires
            old(self).wf(),
            old(stores).wf(),
        ensures
            final(self).wf(),
            final(stores).wf(),
            old(self).same_setup(*final(self)),
            final(self).is_dirty() == old(self).is_dirty(),
            final(self).cached() == Some(value),
            write_step(
                old(self).kind(),
                old(self).spec_key(),
                old(self).spec_codec().enc_spec(value@),
                *old(stores),
                *final(stores),
                r,
            ),
    {
        let res = set_data(&self.storage_kind, stores, self.key.as_str(), &value, &self.codec);
        self.value = Some(value);
        res
    }

    /// Does the cell hold a value, or the store its key? A pure query: no
    /// load, no decode, no lookup tallied.
    pub fn is_set(&self, stores: &Stores) -> (r: bool)
        requires
            self.wf(),
            stores.wf(),
        ensures
            r == (self.cached() is Some || (self.kind().selected(*stores).is_available()
                && self.kind().selected(*stores)@.contains_key(self.spec_key()))),
    {
        if self.value.is_some() {
            return true;
        }
        match self.storage_kind {
            StorageKind::Local => stores.local.contains_key(self.key.as_str()),
            StorageKind::Session => stores.session.contains_key(self.key.as_str()),
        }
    }

    /// Drop the key from the store and forget the cached value. The slot is
    /// cleared and the cell marked clean even when the store refuses the
    /// removal: the removal is best-effort for persistence, authoritative
    /// for the in-memory slot.
    pub fn remove(&mut self, stores: &mut Stores) -> (r: Result<(), StorageError>)
        requires
            old(self).wf(),
            old(stores).wf(),
        ensures
            final(self).wf(),
            final(stores).wf(),
            old(self).same_setup(*final(self)),
            final(self).cached() is None,
            !final(self).is_dirty(),
            ({
                let pre = old(self).kind().selected(*old(stores));
                let post = old(self).kind().selected(*final(stores));
                &&& old(self).kind().unselected(*final(stores)) == old(self).kind().unselected(
                    *old(stores),
                )
                &&& post.is_available() == pre.is_available()
                &&& post.quota() == pre.quota()
                &&& post.lookups() == pre.lookups()
                &&& post.writes() == pre.writes() + 1
                &&& match r {
                    Ok(()) => pre.is_available() && post@ == pre@.remove(old(self).spec_key()),
                    Err(e) => {
                        &&& !pre.is_available()
                        &&& e == StorageError::StoreUnavailable
                        &&& post@ == pre@
                    },
                }
            }),
    {
        let res = self.storage_kind.remove_item(stores, self.key.as_str());
        self.value = None;
        self.mutated = false;
        res
    }

    /// Persist the current value — unless there is nothing to do: a clean
    /// cell whose key the store already has skips the write and succeeds.
    /// A missing key is always written, even by a clean cell, so that the
    /// default is persisted at least once. On success the cell is clean; on
    /// failure it keeps its dirtiness so the save can be retried.
    pub fn save(&mut self, stores: &mut Stores) -> (r: Result<(), StorageError>)
        requires
            old(self).wf(),
            old(stores).wf(),
        ensures
            final(self).wf(),
            final(stores).wf(),
            old(self).same_setup(*final(self)),
            if old(self).skip_gate(*old(stores)) {
                &&& r is Ok
                &&& *final(stores) == *old(stores)
                &&& *final(self) == *old(self)
            } else {
                &&& final(self).cached() matches Some(v) && {
                    &&& match old(self).cached() {
                        Some(w) => v == w,
                        None => old(self).loads_to(*old(stores), v),
                    }
                    &&& flush_step(
                        old(self).kind(),
                        old(self).spec_key(),
                        old(self).spec_codec().enc_spec(v@),
                        old(self).cached() is None,
                        *old(stores),
                        *final(stores),
                    )
                    &&& match old(self).spec_codec().enc_spec(v@) {
                        None => r matches Err(e) && e == StorageError::EncodeFailure,
                        Some(_) => {
                            let st = old(self).kind().selected(*old(stores));
                            if !st.is_available() {
                                r matches Err(e) && e == StorageError::StoreUnavailable
                            } else if st@.contains_key(old(self).spec_key()) || st@.dom().len()
                                < st.quota() {
                                r is Ok
                            } else {
                                r matches Err(e) && e == StorageError::StoreWriteFailure
                            }
                        },
                    }
                }
                &&& final(self).is_dirty() == if r is Ok {
                    false
                } else {
                    old(self).is_dirty()
                }
            },
    {
        let was_changed = self.mutated && self.value.is_some();
        let storage_contains_this_key = match self.storage_kind {
            StorageKind::Local => stores.local.contains_key(self.key.as_str()),
            StorageKind::Session => stores.session.contains_key(self.key.as_str()),
        };
        if !was_changed && storage_contains_this_key {
            return Ok(());
        }
        let _ = self.try_resolve(stores);
        let res = match &self.value {
            Some(v) => set_data(&self.storage_kind, stores, self.key.as_str(), v, &self.codec),
            None => unreached(),
        };
        if res.is_ok() {
            self.mutated = false;
        }
        res
    }

    /// Wind down one use of the cell: save if asked to and configured to,
    /// clear the slot if asked to, and mark the cell clean. Save errors are
    /// swallowed.
    fn finalize_use(&mut self, stores: &mut Stores, clear: bool, save: bool)
        requires
            old(self).wf(),
            old(stores).wf(),
        ensures
            final(self).wf(),
            final(stores).wf(),
            old(self).same_setup(*final(self)),
            !final(self).is_dirty(),
            if !(save && old(self).saves_on_drop()) || old(self).skip_gate(*old(stores)) {
                &&& *final(stores) == *old(stores)
                &&& final(self).cached() == if clear {
                    Option::<V>::None
                } else {
                    old(self).cached()
                }
            } else {
                exists|v: V|
                    {
                        &&& match old(self).cached() {
                            Some(w) => v == w,
                            None => old(self).loads_to(*old(stores), v),
                        }
                        &&& #[trigger] flush_step(
                            old(self).kind(),
                            old(self).spec_key(),
                            old(self).spec_codec().enc_spec(v@),
                            old(self).cached() is None,
                            *old(stores),
                            *final(stores),
                        )
                        &&& final(self).cached() == if clear {
                            Option::<V>::None
                        } else {
                            Some(v)
                        }
                    }
            },
    {
        if save && self.save_on_drop {
            let _ = self.save(stores);
        }
        if clear {
            self.value = None;
        }
        self.mutated = false;
    }

    /// Take the value out, consuming the cell: first the finalize-time save
    /// (if the cell is configured for one), then a load if the slot is still
    /// empty, then the value by ownership.
    pub fn take(self, stores: &mut Stores) -> (r: V)
        requires
            self.wf(),
            old(stores).wf(),
            self.can_read(*old(stores)),
        ensures
            final(stores).wf(),
            match self.cached() {
                Some(v) => r == v,
                None => self.loads_to(*old(stores), r),
            },
            if self.saves_on_drop() && !self.skip_gate(*old(stores)) {
                flush_step(
                    self.kind(),
                    self.spec_key(),
                    self.spec_codec().enc_spec(r@),
                    self.cached() is None,
                    *old(stores),
                    *final(stores),
                )
            } else {
                &&& self.kind().unselected(*final(stores)) == self.kind().unselected(*old(stores))
                &&& if self.cached() is Some {
                    *final(stores) == *old(stores)
                } else {
                    Store::reads_once(
                        self.kind().selected(*old(stores)),
                        self.kind().selected(*final(stores)),
                    )
                }
            },
    {
        let mut this = self;
        this.finalize_use(stores, false, true);
        let _ = this.try_resolve(stores);
        match this.value {
            Some(v) => v,
            None => unreached(),
        }
    }

    /// Finish with the cell: the analogue of letting it go out of scope.
    /// Saves if configured to (swallowing any error), then forgets the
    /// cached value.
    pub fn finish(self, stores: &mut Stores)
        requires
            self.wf(),
            old(stores).wf(),
        ensures
            final(stores).wf(),
            if !self.saves_on_drop() || self.skip_gate(*old(stores)) {
                *final(stores) == *old(stores)
            } else {
                match self.cached() {
                    Some(v) => flush_step(
                        self.kind(),
                        self.spec_key(),
                        self.spec_codec().enc_spec(v@),
                        false,
                        *old(stores),
                        *final(stores),
                    ),
                    None => exists|v: V|
                        call_ensures(self.supplier(), (), v) && #[trigger] flush_step(
                            self.kind(),
                            self.spec_key(),
                            self.spec_codec().enc_spec(v@),
                            true,
                            *old(stores),
                            *final(stores),
                        ),
                }
            },
    {
        let mut this = self;
        this.finalize_use(stores, true, true);
    }
}

/// The round-trip law, lifted to a cell over a store: if a value was
/// persisted under a cell's key by a round-tripping codec, then whatever a
/// fresh cell over that key loads has exactly that value's view — the
/// default supplier is never consulted and nothing else can come back.
pub proof fn lemma_persisted_value_reloads<V: View, C: Codec<V>, D: Fn() -> V>(
    cell: StorageData<V, C, D>,
    stores: Stores,
    entry: Seq<char>,
    v: V,
    r: V,
)
    requires
        cell.cached() is None,
        cell.spec_codec().round_trips(),
        cell.entry_in(stores) == Some(entry),
        cell.spec_codec().enc_spec(v@) == Some(entry),
        cell.loads_to(stores, r),
    ensures
        r@ == v@,
{
    cell.spec_codec().lemma_round_trip(v@, entry);
}

} // verus!
