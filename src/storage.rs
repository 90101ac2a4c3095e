use vstd::prelude::*;

use dashmap::DashMap;

use crate::error::StorageError;
use crate::key::Key;
use crate::models::{CreateKVRequest, KeyValueResponse, Metadata, Timestamp, ValueResponse};

verus! {

#[verifier::external_type_specification]
#[verifier::external_body]
#[verifier::reject_recursive_types(K)]
#[verifier::reject_recursive_types(V)]
#[verifier::reject_recursive_types(S)]
pub struct ExDashMap<K, V, S>(DashMap<K, V, S>);

/// The store's model: for the text of each key, the text of its value and its
/// timestamps.
pub type Entries = Map<Seq<char>, (Seq<char>, Metadata)>;

/// What a map of records holds: for the text of each key, the text of its value
/// and its timestamps.
pub uninterp spec fn dash_entries(m: DashMap<Key, ValueResponse>) -> Entries;

/// Relies on `DashMap::new`: a new map holds nothing.
#[verifier::external_body]
fn dash_new() -> (r: DashMap<Key, ValueResponse>)
    ensures
        dash_entries(r) == Entries::empty(),
{
    DashMap::new()
}

/// Relies on `DashMap::get`: the record stored under the key, if any (a copy of it).
#[verifier::external_body]
fn dash_get(m: &DashMap<Key, ValueResponse>, key: &Key) -> (r: Option<ValueResponse>)
    ensures
        r is Some <==> dash_entries(*m).contains_key(key@),
        r is Some ==> r->0.entry() == dash_entries(*m)[key@],
{
    m.get(key).map(|e| e.value().clone())
}

/// Relies on `DashMap::contains_key`: whether a record is stored under the key.
#[verifier::external_body]
fn dash_contains_key(m: &DashMap<Key, ValueResponse>, key: &Key) -> (r: bool)
    ensures
        r == dash_entries(*m).contains_key(key@),
{
    m.contains_key(key)
}

/// Relies on `DashMap::insert`: the key now maps to the record, replacing any
/// earlier one, and nothing else changes.
#[verifier::external_body]
fn dash_insert(m: &mut DashMap<Key, ValueResponse>, key: Key, record: ValueResponse)
    ensures
        dash_entries(*final(m)) == dash_entries(*old(m)).insert(key@, record.entry()),
{
    m.insert(key, record);
}

/// Relies on `DashMap::remove`: the record that was stored under the key, if
/// any, which is no longer stored; nothing else changes.
#[verifier::external_body]
fn dash_remove(m: &mut DashMap<Key, ValueResponse>, key: &Key) -> (r: Option<ValueResponse>)
    ensures
        r is Some <==> dash_entries(*old(m)).contains_key(key@),
        r is Some ==> r->0.entry() == dash_entries(*old(m))[key@],
        dash_entries(*final(m)) == dash_entries(*old(m)).remove(key@),
{
    m.remove(key).map(|(_, v)| v)
}

/// Relies on `DashMap::iter`: each stored key exactly once, in no set order.
#[verifier::external_body]
fn dash_keys(m: &DashMap<Key, ValueResponse>) -> (r: Vec<Key>)
    ensures
        r@.map_values(|k: Key| k@).to_set() == dash_entries(*m).dom(),
        r@.map_values(|k: Key| k@).no_duplicates(),
{
    m.iter().map(|e| e.key().clone()).collect()
}

/// Relies on `chrono::Utc::now`, read as whole seconds and nanoseconds since
/// the Unix epoch (`DateTime::timestamp`, `DateTime::timestamp_subsec_nanos`).
/// The reading is not before the epoch (`Utc::now` panics on a clock set
/// earlier) and its nanoseconds come from a `Duration`, so stay below a second.
#[verifier::external_body]
fn clock_now() -> (t: Timestamp)
    ensures
        t.secs >= 0,
        t.nanos < 1_000_000_000,
{
    let now = chrono::Utc::now();
    Timestamp { secs: now.timestamp(), nanos: now.timestamp_subsec_nanos() }
}

/// The timestamps of a record first stored at `now`.
pub open spec fn fresh_metadata(now: Timestamp) -> Metadata {
    Metadata { created_at: now, updated_at: now }
}

/// The timestamps of the record that an upsert at `now` leaves under `k`: a
/// record already there keeps its creation time.
pub open spec fn upserted_metadata(m: Entries, k: Seq<char>, now: Timestamp) -> Metadata {
    Metadata {
        created_at: if m.contains_key(k) { m[k].1.created_at } else { now },
        updated_at: now,
    }
}

/// The store after inserting `v` under `k` at `now`: unchanged when `k` is present.
pub open spec fn after_insert(m: Entries, k: Seq<char>, v: Seq<char>, now: Timestamp) -> Entries {
    if m.contains_key(k) {
        m
    } else {
        m.insert(k, (v, fresh_metadata(now)))
    }
}

/// The store after upserting `v` under `k` at `now`.
pub open spec fn after_upsert(m: Entries, k: Seq<char>, v: Seq<char>, now: Timestamp) -> Entries {
    m.insert(k, (v, upserted_metadata(m, k, now)))
}

/// The store after deleting `k`.
pub open spec fn after_delete(m: Entries, k: Seq<char>) -> Entries {
    m.remove(k)
}

/// No timestamp in the store is later than the clock reading `now`.
pub open spec fn clock_not_behind(m: Entries, now: Timestamp) -> bool {
    forall|k: Seq<char>|
        #[trigger] m.contains_key(k) ==> m[k].1.created_at.not_after(now)
            && m[k].1.updated_at.not_after(now)
}

/// Inserting under a key and then inserting under it again: the second insert
/// finds the key present, so it is refused and changes nothing; when the key
/// was new, the stored value is the first one.
pub proof fn lemma_second_insert_conflicts(
    m: Entries,
    k: Seq<char>,
    v: Seq<char>,
    v2: Seq<char>,
    t1: Timestamp,
    t2: Timestamp,
)
    ensures
        after_insert(m, k, v, t1).contains_key(k),
        after_insert(after_insert(m, k, v, t1), k, v2, t2) == after_insert(m, k, v, t1),
        !m.contains_key(k) ==> after_insert(m, k, v, t1)[k].0 == v,
{
}

/// Upserting under a key twice, with a clock that moves forward: the record
/// holds the second value, keeps the creation time that the first upsert left,
/// and was updated strictly after it was created.
pub proof fn lemma_upsert_twice(
    m: Entries,
    k: Seq<char>,
    v1: Seq<char>,
    v2: Seq<char>,
    t1: Timestamp,
    t2: Timestamp,
)
    requires
        clock_not_behind(m, t1),
        t1.before(t2),
    ensures
        ({
            let m1 = after_upsert(m, k, v1, t1);
            let m2 = after_upsert(m1, k, v2, t2);
            &&& m2[k].0 == v2
            &&& m2[k].1.created_at == m1[k].1.created_at
            &&& m2[k].1.created_at.before(m2[k].1.updated_at)
        }),
{
}

/// Deleting a key that is absent changes nothing (the call reports
/// `KeyNotFound`); after deleting a key, the key is absent, so a lookup
/// reports `KeyNotFound`.
pub proof fn lemma_delete_removes(m: Entries, k: Seq<char>)
    ensures
        !m.contains_key(k) ==> after_delete(m, k) == m,
        !after_delete(m, k).contains_key(k),
{
    if !m.contains_key(k) {
        assert(after_delete(m, k) =~= m);
    }
}

/// An empty store has no keys; upserting three distinct keys into it leaves
/// exactly those three keys.
pub proof fn lemma_keys_after_upserts(
    k1: Seq<char>,
    k2: Seq<char>,
    k3: Seq<char>,
    v1: Seq<char>,
    v2: Seq<char>,
    v3: Seq<char>,
    t1: Timestamp,
    t2: Timestamp,
    t3: Timestamp,
)
    requires
        k1 != k2,
        k1 != k3,
        k2 != k3,
    ensures
        Entries::empty().dom().len() == 0,
        ({
            let m = after_upsert(
                after_upsert(after_upsert(Entries::empty(), k1, v1, t1), k2, v2, t2),
                k3,
                v3,
                t3,
            );
            &&& m.dom() == set![k1, k2, k3]
            &&& m.dom().len() == 3
        }),
{
    let m = after_upsert(
        after_upsert(after_upsert(Entries::empty(), k1, v1, t1), k2, v2, t2),
        k3,
        v3,
        t3,
    );
    assert(m.dom() =~= set![k1, k2, k3]);
    assert(set![k1, k2, k3].len() == 3);
}

/// The operations of a key-value store, stated over `entries`, the map from
/// each key's text to its value's text and timestamps.
pub trait Storage {
    spec fn entries(&self) -> Entries;

    /// The record stored under `key`, or `KeyNotFound`.
    fn get(&self, key: Key) -> (r: Result<ValueResponse, StorageError>)
        ensures
            match r {
                Ok(rec) => self.entries().contains_key(key@) && rec.entry() == self.entries()[key@],
                Err(e) => !self.entries().contains_key(key@) && e == StorageError::KeyNotFound(key),
            },
    ;

    /// Stores the value under a key that is not yet present, with both
    /// timestamps set to the time of the call; `KeyAlreadyExists` otherwise.
    fn insert(&mut self, body: CreateKVRequest) -> (r: Result<KeyValueResponse, StorageError>)
        ensures
            match r {
                Ok(resp) => {
                    &&& !old(self).entries().contains_key(body.key@)
                    &&& resp.key@ == body.key@
                    &&& resp.value@ == body.value@
                    &&& resp.metadata == fresh_metadata(resp.metadata.created_at)
                    &&& final(self).entries() == after_insert(
                        old(self).entries(),
                        body.key@,
                        body.value@,
                        resp.metadata.created_at,
                    )
                },
                Err(e) => {
                    &&& old(self).entries().contains_key(body.key@)
                    &&& e == StorageError::KeyAlreadyExists(body.key)
                    &&& final(self).entries() == old(self).entries()
                },
            },
    ;

    /// Stores the value under the key whether or not it is present; a record
    /// already there keeps its creation time, and the update time is the time
    /// of the call.
    fn upsert(&mut self, body: CreateKVRequest) -> (r: KeyValueResponse)
        ensures
            r.key@ == body.key@,
            r.value@ == body.value@,
            r.metadata == upserted_metadata(old(self).entries(), body.key@, r.metadata.updated_at),
            final(self).entries() == after_upsert(
                old(self).entries(),
                body.key@,
                body.value@,
                r.metadata.updated_at,
            ),
    ;

    /// Removes and returns the record stored under `key`, or `KeyNotFound`.
    fn delete(&mut self, key: Key) -> (r: Result<ValueResponse, StorageError>)
        ensures
            final(self).entries() == after_delete(old(self).entries(), key@),
            match r {
                Ok(rec) => old(self).entries().contains_key(key@) && rec.entry() == old(self).entries()[key@],
                Err(e) => !old(self).entries().contains_key(key@) && e == StorageError::KeyNotFound(key),
            },
    ;

    /// Every stored key once, in no set order.
    fn list_keys(&self) -> (r: Vec<Key>)
        ensures
            r@.map_values(|k: Key| k@).to_set() == self.entries().dom(),
            r@.map_values(|k: Key| k@).no_duplicates(),
            r@.len() == self.entries().dom().len(),
    ;
}

/// A key-value store held in memory, in a `DashMap` from key to record.
pub struct InMemoryStorage {
    map: DashMap<Key, ValueResponse>,
}

impl InMemoryStorage {
    /// An empty store.
    pub fn new() -> (r: InMemoryStorage)
        ensures
            r.entries() == Entries::empty(),
    {
        InMemoryStorage { map: dash_new() }
    }

    /// `insert` with the clock reading `now` as the time of the call.
    pub fn insert_at(&mut self, body: CreateKVRequest, now: Timestamp) -> (r: Result<KeyValueResponse, StorageError>)
        ensures
            final(self).entries() == after_insert(old(self).entries(), body.key@, body.value@, now),
            r is Err <==> old(self).entries().contains_key(body.key@),
            match r {
                Ok(resp) => resp.key@ == body.key@ && resp.value@ == body.value@ && resp.metadata == fresh_metadata(now),
                Err(e) => e == StorageError::KeyAlreadyExists(body.key),
            },
    {
        if dash_contains_key(&self.map, &body.key) {
            return Err(StorageError::KeyAlreadyExists(body.key));
        }
        let metadata = Metadata { created_at: now, updated_at: now };
        let record = ValueResponse { value: body.value.clone(), metadata };
        dash_insert(&mut self.map, body.key.copy(), record);
        Ok(KeyValueResponse { key: body.key, value: body.value, metadata })
    }

    /// `upsert` with the clock reading `now` as the time of the call.
    pub fn upsert_at(&mut self, body: CreateKVRequest, now: Timestamp) -> (r: KeyValueResponse)
        ensures
            final(self).entries() == after_upsert(old(self).entries(), body.key@, body.value@, now),
            r.key@ == body.key@,
            r.value@ == body.value@,
            r.metadata == upserted_metadata(old(self).entries(), body.key@, now),
    {
        let created_at = match dash_get(&self.map, &body.key) {
            Some(existing) => existing.metadata.created_at,
            None => now,
        };
        let metadata = Metadata { created_at, updated_at: now };
        let record = ValueResponse { value: body.value.clone(), metadata };
        dash_insert(&mut self.map, body.key.copy(), record);
        KeyValueResponse { key: body.key, value: body.value, metadata }
    }
}

impl Default for InMemoryStorage {
    fn default() -> (r: InMemoryStorage)
        ensures
            r.entries() == Entries::empty(),
    {
        InMemoryStorage::new()
    }
}

impl Storage for InMemoryStorage {
    closed spec fn entries(&self) -> Entries {
        dash_entries(self.map)
    }

    fn get(&self, key: Key) -> (r: Result<ValueResponse, StorageError>) {
        match dash_get(&self.map, &key) {
            Some(rec) => Ok(rec),
            None => Err(StorageError::KeyNotFound(key)),
        }
    }

    fn insert(&mut self, body: CreateKVRequest) -> (r: Result<KeyValueResponse, StorageError>) {
        let now = clock_now();
        self.insert_at(body, now)
    }

    fn upsert(&mut self, body: CreateKVRequest) -> (r: KeyValueResponse) {
        let now = clock_now();
        self.upsert_at(body, now)
    }

    fn delete(&mut self, key: Key) -> (r: Result<ValueResponse, StorageError>) {
        match dash_remove(&mut self.map, &key) {
            Some(rec) => Ok(rec),
            None => Err(StorageError::KeyNotFound(key)),
        }
    }

    fn list_keys(&self) -> (r: Vec<Key>) {
        let keys = dash_keys(&self.map);
        proof {
            keys@.map_values(|k: Key| k@).unique_seq_to_set();
        }
        keys
    }
}

} // verus!
