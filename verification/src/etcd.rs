//! A revisioned key-value store in the manner of etcd.
//!
//! Every successful write bumps the store's revision by one. A key keeps the
//! revision at which it was created, the revision of its last change, and a
//! version that counts its writes since creation. Each write is also recorded
//! as an [`Event`] for watchers: the events wait, oldest first, in a queue
//! that `take_events` empties, which models the event channel the server's
//! watchers subscribe to (the channel itself lives with the server).
use vstd::prelude::*;
use crate::bytes::{bytes_eq, copy_bytes, slice_to_bytes};
use crate::errors::{DockerError, DockerErrorKind};

verus! {

broadcast use vstd::string::group_string_axioms;

/// A stored key with its value and revision data.
#[derive(Debug, Clone)]
pub struct KeyValue {
    /// The key.
    pub key: Vec<u8>,
    /// The value.
    pub value: Vec<u8>,
    /// The store revision at which the key was created.
    pub create_revision: i64,
    /// The store revision of the key's last change.
    pub mod_revision: i64,
    /// How many times the key was written since it was created.
    pub version: i64,
    /// The lease attached to the key.
    pub lease: i64,
}

/// The mathematical content of a [`KeyValue`].
pub struct KeyValueView {
    pub key: Seq<u8>,
    pub value: Seq<u8>,
    pub create_revision: i64,
    pub mod_revision: i64,
    pub version: i64,
    pub lease: i64,
}

impl View for KeyValue {
    type V = KeyValueView;

    open spec fn view(&self) -> KeyValueView {
        KeyValueView {
            key: self.key@,
            value: self.value@,
            create_revision: self.create_revision,
            mod_revision: self.mod_revision,
            version: self.version,
            lease: self.lease,
        }
    }
}

impl KeyValue {
    /// A copy of this key-value pair.
    pub fn duplicate(&self) -> (r: KeyValue)
        ensures
            r@ == self@,
    {
        KeyValue {
            key: copy_bytes(&self.key),
            value: copy_bytes(&self.value),
            create_revision: self.create_revision,
            mod_revision: self.mod_revision,
            version: self.version,
            lease: self.lease,
        }
    }
}

/// The kind of change an event records.
#[derive(Debug, Clone, Copy, PartialEq, Eq, Structural)]
pub enum EventType {
    /// A key was written.
    Put,
    /// A key was deleted.
    Delete,
}

/// A change to the store.
#[derive(Debug, Clone)]
pub struct Event {
    /// The kind of change.
    pub event_type: EventType,
    /// The key-value pair after a put, or the removed pair for a delete.
    pub kv: KeyValue,
    /// For a put, the pair that the put replaced, if any.
    pub prev_kv: Option<KeyValue>,
}

/// The mathematical content of an [`Event`].
pub struct EventView {
    pub event_type: EventType,
    pub kv: KeyValueView,
    pub prev_kv: Option<KeyValueView>,
}

/// The view of an optional key-value pair.
pub open spec fn opt_kv_view(o: Option<KeyValue>) -> Option<KeyValueView> {
    match o {
        Some(kv) => Some(kv@),
        None => None,
    }
}

impl View for Event {
    type V = EventView;

    open spec fn view(&self) -> EventView {
        EventView { event_type: self.event_type, kv: self.kv@, prev_kv: opt_kv_view(self.prev_kv) }
    }
}

/// The views of a sequence of events.
pub open spec fn events_view(s: Seq<Event>) -> Seq<EventView> {
    Seq::new(s.len(), |i: int| s[i]@)
}

/// The store.
pub struct Storage {
    entries: Vec<KeyValue>,
    revision: i64,
    events: Vec<Event>,
}

/// Position `i` of `entries` holds key `k`.
pub open spec fn holds_key(entries: Seq<KeyValue>, k: Seq<u8>, i: int) -> bool {
    0 <= i < entries.len() && entries[i].key@ == k
}

/// The map from keys to stored pairs that `entries` represent.
pub open spec fn entries_map(entries: Seq<KeyValue>) -> Map<Seq<u8>, KeyValueView> {
    Map::new(
        |k: Seq<u8>| exists|i: int| holds_key(entries, k, i),
        |k: Seq<u8>| entries[choose|i: int| holds_key(entries, k, i)]@,
    )
}

/// The result of writing `value` under `key` with `lease` when the store is
/// at revision `rev` and the key currently holds `prev`.
pub open spec fn put_result(
    prev: Option<KeyValueView>,
    key: Seq<u8>,
    value: Seq<u8>,
    lease: i64,
    rev: int,
) -> KeyValueView {
    KeyValueView {
        key,
        value,
        create_revision: match prev {
            Some(p) => p.create_revision,
            None => (rev + 1) as i64,
        },
        mod_revision: (rev + 1) as i64,
        version: match prev {
            Some(p) => (p.version + 1) as i64,
            None => 1,
        },
        lease,
    }
}

/// The pair stored under `key` in `m`, if any.
pub open spec fn prev_of(m: Map<Seq<u8>, KeyValueView>, key: Seq<u8>) -> Option<KeyValueView> {
    if m.contains_key(key) {
        Some(m[key])
    } else {
        None
    }
}

/// The pairs `m` after `value` was written under `key` with `lease` at
/// revision `rev`.
pub open spec fn after_put(
    m: Map<Seq<u8>, KeyValueView>,
    key: Seq<u8>,
    value: Seq<u8>,
    lease: i64,
    rev: int,
) -> Map<Seq<u8>, KeyValueView> {
    m.insert(key, put_result(prev_of(m, key), key, value, lease, rev))
}

impl Storage {
    /// The stored pairs, by key.
    pub closed spec fn view(&self) -> Map<Seq<u8>, KeyValueView> {
        entries_map(self.entries@)
    }

    /// The current revision.
    pub closed spec fn revision_spec(&self) -> i64 {
        self.revision
    }

    /// The events recorded and not yet taken.
    pub closed spec fn pending_events(&self) -> Seq<EventView> {
        events_view(self.events@)
    }

    /// The stored pairs, in storage order.
    pub closed spec fn entry_views(&self) -> Seq<KeyValueView> {
        Seq::new(self.entries@.len(), |i: int| self.entries@[i]@)
    }

    /// The store's invariant: keys are distinct, and for every key
    /// `1 <= version <= mod_revision <= revision` and
    /// `1 <= create_revision <= mod_revision`.
    pub closed spec fn wf(&self) -> bool {
        &&& self.revision >= 1
        &&& forall|i: int, j: int|
            0 <= i < j < self.entries@.len() ==> self.entries@[i].key@ != self.entries@[j].key@
        &&& forall|i: int|
            0 <= i < self.entries@.len() ==> {
                let e = #[trigger] self.entries@[i];
                &&& 1 <= e.version <= e.mod_revision <= self.revision
                &&& 1 <= e.create_revision <= e.mod_revision
            }
    }

    proof fn lemma_lookup(&self, k: Seq<u8>, i: int)
        requires
            self.wf(),
            holds_key(self.entries@, k, i),
        ensures
            self@.contains_key(k),
            self@[k] == self.entries@[i]@,
    {
        let j = choose|j: int| holds_key(self.entries@, k, j);
        assert(holds_key(self.entries@, k, j));
        if i < j {
            assert(self.entries@[i].key@ != self.entries@[j].key@);
        }
        if j < i {
            assert(self.entries@[j].key@ != self.entries@[i].key@);
        }
    }

    /// Every stored pair satisfies the bounds of the invariant.
    pub proof fn lemma_bounds(&self, k: Seq<u8>)
        requires
            self.wf(),
            self@.contains_key(k),
        ensures
            1 <= self@[k].version <= self@[k].mod_revision <= self.revision_spec(),
            1 <= self@[k].create_revision <= self@[k].mod_revision,
            self@[k].key == k,
    {
        let j = choose|j: int| holds_key(self.entries@, k, j);
        self.lemma_lookup(k, j);
    }

    /// An empty store at revision 1.
    pub fn new() -> (s: Self)
        ensures
            s.wf(),
            s@ == Map::<Seq<u8>, KeyValueView>::empty(),
            s.revision_spec() == 1,
            s.pending_events().len() == 0,
    {
        let s = Storage { entries: Vec::new(), revision: 1, events: Vec::new() };
        assert(s@ =~= Map::<Seq<u8>, KeyValueView>::empty());
        assert(s.pending_events() =~= Seq::<EventView>::empty());
        s
    }

    fn find(&self, key: &Vec<u8>) -> (r: Option<usize>)
        requires
            self.wf(),
        ensures
            match r {
                Some(i) => holds_key(self.entries@, key@, i as int),
                None => !self@.contains_key(key@),
            },
    {
        let mut i: usize = 0;
        while i < self.entries.len()
            invariant
                i <= self.entries@.len(),
                forall|j: int| 0 <= j < i ==> self.entries@[j].key@ != key@,
            decreases self.entries.len() - i,
        {
            if bytes_eq(&self.entries[i].key, key) {
                return Some(i);
            }
            i = i + 1;
        }
        None
    }

    /// The pair stored under `key`, or a not-found error.
    pub fn get(&self, key: &[u8]) -> (r: Result<KeyValue, DockerError>)
        requires
            self.wf(),
        ensures
            match r {
                Ok(kv) => self@.contains_key(key@) && kv@ == self@[key@],
                Err(e) => !self@.contains_key(key@) && (*e.kind matches
                    DockerErrorKind::ResourceNotFound { resource_type: t, identifier: id }
                    && t@ == "key"@ && id@ == "not found"@),
            },
    {
        let k = slice_to_bytes(key);
        match self.find(&k) {
            Some(i) => {
                proof {
                    self.lemma_lookup(k@, i as int);
                }
                Ok(self.entries[i].duplicate())
            },
            None => Err(DockerError::not_found("key", "not found")),
        }
    }

    /// Writes `value` under `key`: bumps the revision, keeps the creation
    /// revision of an existing key, counts the write in its version, and
    /// records a put event.
    pub fn put(&mut self, key: Vec<u8>, value: Vec<u8>, lease: i64) -> (r: Result<
        KeyValue,
        DockerError,
    >)
        requires
            old(self).wf(),
            old(self).revision_spec() < i64::MAX,
        ensures
            final(self).wf(),
            r is Ok,
            final(self).revision_spec() == old(self).revision_spec() + 1,
            match r {
                Ok(kv) => {
                    &&& kv@ == put_result(
                        if old(self)@.contains_key(key@) {
                            Some(old(self)@[key@])
                        } else {
                            None
                        },
                        key@,
                        value@,
                        lease,
                        old(self).revision_spec() as int,
                    )
                    &&& final(self)@ == old(self)@.insert(key@, kv@)
                    &&& final(self)@ == after_put(old(self)@, key@, value@, lease, old(self).revision_spec() as int)
                    &&& final(self).pending_events() == old(self).pending_events().push(
                        EventView {
                            event_type: EventType::Put,
                            kv: kv@,
                            prev_kv: if old(self)@.contains_key(key@) {
                                Some(old(self)@[key@])
                            } else {
                                None
                            },
                        },
                    )
                },
                Err(_) => false,
            },
    {
        let ghost old_map = self@;
        let ghost old_entries = self.entries@;
        let new_revision = self.revision + 1;
        let found = self.find(&key);
        let prev: Option<KeyValue> = match found {
            Some(i) => Some(self.entries[i].duplicate()),
            None => None,
        };
        proof {
            if let Some(i) = found {
                self.lemma_lookup(key@, i as int);
            }
        }
        let create_revision = match &prev {
            Some(p) => p.create_revision,
            None => new_revision,
        };
        let version = match &prev {
            Some(p) => p.version + 1,
            None => 1,
        };
        let kv = KeyValue {
            key: copy_bytes(&key),
            value,
            create_revision,
            mod_revision: new_revision,
            version,
            lease,
        };
        let stored = kv.duplicate();
        match found {
            Some(i) => {
                self.entries.set(i, stored);
            },
            None => {
                self.entries.push(stored);
            },
        }
        self.revision = new_revision;
        let ghost prev_view = opt_kv_view(prev);
        let event = Event { event_type: EventType::Put, kv: kv.duplicate(), prev_kv: prev };
        self.events.push(event);
        proof {
            let ne = self.entries@;
            assert(forall|j: int| 0 <= j < ne.len() && j != (if found is Some { found->0 as int } else { old_entries.len() as int }) ==> ne[j] == old_entries[j]);
            assert forall|a: int, b: int| 0 <= a < b < ne.len() implies ne[a].key@ != ne[b].key@ by {
                if found is None {
                    if b == old_entries.len() {
                        assert(!holds_key(old_entries, key@, a));
                    }
                } else {
                    let f = found->0 as int;
                    if a == f {
                        assert(old_entries[f].key@ == key@);
                    }
                    if b == f {
                        assert(old_entries[f].key@ == key@);
                    }
                }
            }
            assert(self.wf());
            assert forall|k: Seq<u8>| #![trigger self@.contains_key(k)]
                self@.contains_key(k) <==> old_map.insert(key@, kv@).contains_key(k) by {
                if k == key@ {
                    let f = if found is Some { found->0 as int } else { old_entries.len() as int };
                    assert(holds_key(ne, k, f));
                } else {
                    if self@.contains_key(k) {
                        let j = choose|j: int| holds_key(ne, k, j);
                        assert(holds_key(old_entries, k, j));
                    }
                    if old_map.contains_key(k) {
                        let j = choose|j: int| holds_key(old_entries, k, j);
                        assert(holds_key(ne, k, j));
                    }
                }
            }
            let f = if found is Some { found->0 as int } else { old_entries.len() as int };
            assert(ne[f]@ == kv@);
            assert forall|k: Seq<u8>| #[trigger] self@.contains_key(k) implies self@[k]
                == old_map.insert(key@, kv@)[k] by {
                let j = choose|j: int| holds_key(ne, k, j);
                self.lemma_lookup(k, j);
                if k == key@ {
                    self.lemma_lookup(k, f);
                } else {
                    assert(j != f);
                    assert(ne[j] == old_entries[j]);
                    assert(holds_key(old_entries, k, j));
                    let jj = choose|jj: int| holds_key(old_entries, k, jj);
                    assert(holds_key(old_entries, k, jj));
                    if jj != j {
                        if jj < j {
                            assert(old_entries[jj].key@ != old_entries[j].key@);
                        } else {
                            assert(old_entries[j].key@ != old_entries[jj].key@);
                        }
                    }
                    assert(old_map[k] == old_entries[j]@);
                }
            }
            assert(self@ =~= old_map.insert(key@, kv@));
            assert(self.pending_events() =~= old(self).pending_events().push(event@));
        }
        Ok(kv)
    }

    /// Removes `key`. When it was present, bumps the revision, records a
    /// delete event and returns the removed pair; otherwise changes nothing.
    pub fn delete(&mut self, key: &[u8]) -> (r: Result<Option<KeyValue>, DockerError>)
        requires
            old(self).wf(),
            old(self)@.contains_key(key@) ==> old(self).revision_spec() < i64::MAX,
        ensures
            final(self).wf(),
            final(self)@ == old(self)@.remove(key@),
            match r {
                Ok(Some(kv)) => {
                    &&& old(self)@.contains_key(key@)
                    &&& kv@ == old(self)@[key@]
                    &&& final(self).revision_spec() == old(self).revision_spec() + 1
                    &&& final(self).pending_events() == old(self).pending_events().push(
                        EventView { event_type: EventType::Delete, kv: kv@, prev_kv: None },
                    )
                },
                Ok(None) => {
                    &&& !old(self)@.contains_key(key@)
                    &&& final(self).revision_spec() == old(self).revision_spec()
                    &&& final(self).pending_events() == old(self).pending_events()
                },
                Err(_) => false,
            },
    {
        let k = slice_to_bytes(key);
        let ghost old_map = self@;
        let ghost old_entries = self.entries@;
        match self.find(&k) {
            None => {
                assert(self@ =~= old_map.remove(key@));
                Ok(None)
            },
            Some(i) => {
                proof {
                    self.lemma_lookup(k@, i as int);
                }
                let removed = self.entries.remove(i);
                self.revision = self.revision + 1;
                let event = Event { event_type: EventType::Delete, kv: removed.duplicate(), prev_kv: None };
                self.events.push(event);
                proof {
                    let ne = self.entries@;
                    assert(ne == old_entries.remove(i as int));
                    assert forall|a: int, b: int| 0 <= a < b < ne.len() implies ne[a].key@ != ne[b].key@ by {
                        let oa = if a < i { a } else { a + 1 };
                        let ob = if b < i { b } else { b + 1 };
                        assert(ne[a] == old_entries[oa]);
                        assert(ne[b] == old_entries[ob]);
                    }
                    assert forall|j: int| 0 <= j < ne.len() implies {
                        let e = #[trigger] ne[j];
                        &&& 1 <= e.version <= e.mod_revision <= self.revision
                        &&& 1 <= e.create_revision <= e.mod_revision
                    } by {
                        let oj = if j < i { j } else { j + 1 };
                        assert(ne[j] == old_entries[oj]);
                    }
                    assert(self.wf());
                    assert forall|kk: Seq<u8>| #![trigger self@.contains_key(kk)]
                        self@.contains_key(kk) <==> old_map.remove(key@).contains_key(kk) by {
                        if self@.contains_key(kk) {
                            let j = choose|j: int| holds_key(ne, kk, j);
                            let oj = if j < i { j } else { j + 1 };
                            assert(ne[j] == old_entries[oj]);
                            assert(holds_key(old_entries, kk, oj));
                            assert(oj != i);
                            assert(old_entries[oj].key@ != old_entries[i as int].key@) by {
                                if oj < i {} else {}
                            }
                        }
                        if old_map.remove(key@).contains_key(kk) {
                            let oj = choose|oj: int| holds_key(old_entries, kk, oj);
                            assert(oj != i);
                            let j = if oj < i { oj } else { oj - 1 };
                            assert(ne[j] == old_entries[oj]);
                            assert(holds_key(ne, kk, j));
                        }
                    }
                    assert forall|kk: Seq<u8>| #[trigger] self@.contains_key(kk) implies self@[kk]
                        == old_map.remove(key@)[kk] by {
                        let j = choose|j: int| holds_key(ne, kk, j);
                        self.lemma_lookup(kk, j);
                        let oj = if j < i { j } else { j + 1 };
                        assert(ne[j] == old_entries[oj]);
                        assert(holds_key(old_entries, kk, oj));
                        let jj = choose|jj: int| holds_key(old_entries, kk, jj);
                        assert(holds_key(old_entries, kk, jj));
                        if jj != oj {
                            if jj < oj {
                                assert(old_entries[jj].key@ != old_entries[oj].key@);
                            } else {
                                assert(old_entries[oj].key@ != old_entries[jj].key@);
                            }
                        }
                    }
                    assert(self@ =~= old_map.remove(key@));
                    assert(self.pending_events() =~= old(self).pending_events().push(event@));
                }
                Ok(Some(removed))
            },
        }
    }

    /// All stored pairs, one per key.
    pub fn list(&self) -> (r: Vec<KeyValue>)
        requires
            self.wf(),
        ensures
            r.len() == self.entry_views().len(),
            forall|i: int| 0 <= i < r.len() ==> #[trigger] r@[i]@ == self.entry_views()[i],
            forall|i: int| 0 <= i < r.len() ==> self@.contains_key(#[trigger] r@[i].key@) && self@[r@[i].key@] == r@[i]@,
            forall|k: Seq<u8>| #[trigger] self@.contains_key(k) ==> exists|i: int| 0 <= i < r.len() && r@[i].key@ == k,
            forall|i: int, j: int| 0 <= i < j < r.len() ==> r@[i].key@ != r@[j].key@,
    {
        let mut out: Vec<KeyValue> = Vec::new();
        let mut i: usize = 0;
        while i < self.entries.len()
            invariant
                i <= self.entries.len(),
                self.wf(),
                out.len() == i,
                forall|j: int| 0 <= j < i ==> #[trigger] out@[j]@ == self.entries@[j]@,
            decreases self.entries.len() - i,
        {
            out.push(self.entries[i].duplicate());
            i = i + 1;
        }
        proof {
            assert forall|j: int| 0 <= j < out.len() implies self@.contains_key(#[trigger] out@[j].key@) && self@[out@[j].key@] == out@[j]@ by {
                assert(out@[j]@ == self.entries@[j]@);
                self.lemma_lookup(out@[j].key@, j);
            }
            assert forall|k: Seq<u8>| #[trigger] self@.contains_key(k) implies exists|j: int| 0 <= j < out.len() && out@[j].key@ == k by {
                let j = choose|j: int| holds_key(self.entries@, k, j);
                assert(out@[j]@ == self.entries@[j]@);
                assert(out@[j].key@ == k);
            }
            assert forall|a: int, b: int| 0 <= a < b < out.len() implies out@[a].key@ != out@[b].key@ by {
                assert(out@[a]@ == self.entries@[a]@);
                assert(out@[b]@ == self.entries@[b]@);
                assert(self.entries@[a].key@ != self.entries@[b].key@);
            }
        }
        out
    }

    /// The current revision.
    pub fn get_revision(&self) -> (r: i64)
        ensures
            r == self.revision_spec(),
    {
        self.revision
    }

    /// Hands out the events recorded since the last call, oldest first, and
    /// forgets them.
    pub fn take_events(&mut self) -> (r: Vec<Event>)
        requires
            old(self).wf(),
        ensures
            final(self).wf(),
            events_view(r@) == old(self).pending_events(),
            final(self).pending_events().len() == 0,
            final(self)@ == old(self)@,
            final(self).revision_spec() == old(self).revision_spec(),
    {
        let mut r: Vec<Event> = Vec::new();
        std::mem::swap(&mut r, &mut self.events);
        assert(self.pending_events() =~= Seq::<EventView>::empty());
        r
    }
}


/// A read after a write of `key` gives back the written value and lease,
/// stamped with the new revision.
pub proof fn law_get_after_put(before: Storage, key: Seq<u8>, value: Seq<u8>, lease: i64)
    requires
        before.wf(),
        before.revision_spec() < i64::MAX,
    ensures
        after_put(before@, key, value, lease, before.revision_spec() as int).contains_key(key),
        after_put(before@, key, value, lease, before.revision_spec() as int)[key].value == value,
        after_put(before@, key, value, lease, before.revision_spec() as int)[key].lease == lease,
        after_put(before@, key, value, lease, before.revision_spec() as int)[key].mod_revision
            == before.revision_spec() + 1,
{
}

/// A write of `key` leaves every other key as it was.
pub proof fn law_put_keeps_other_keys(
    m: Map<Seq<u8>, KeyValueView>,
    key: Seq<u8>,
    other: Seq<u8>,
    value: Seq<u8>,
    lease: i64,
    rev: int,
)
    requires
        other != key,
    ensures
        after_put(m, key, value, lease, rev).contains_key(other) == m.contains_key(other),
        m.contains_key(other) ==> after_put(m, key, value, lease, rev)[other] == m[other],
{
}

/// Overwriting a key keeps its creation revision and counts one more
/// version; a new key starts at version 1, created at the new revision.
pub proof fn law_put_versions(before: Storage, key: Seq<u8>, value: Seq<u8>, lease: i64)
    requires
        before.wf(),
        before.revision_spec() < i64::MAX,
    ensures
        ({
            let m = before@;
            let after = after_put(m, key, value, lease, before.revision_spec() as int);
            &&& m.contains_key(key) ==> after[key].create_revision == m[key].create_revision
                && after[key].version == m[key].version + 1
            &&& !m.contains_key(key) ==> after[key].create_revision == before.revision_spec() + 1
                && after[key].version == 1
        }),
{
    if before@.contains_key(key) {
        before.lemma_bounds(key);
    }
}

/// A read after a delete of `key` finds nothing, and other keys stay.
pub proof fn law_get_after_delete(m: Map<Seq<u8>, KeyValueView>, key: Seq<u8>, other: Seq<u8>)
    requires
        other != key,
    ensures
        !m.remove(key).contains_key(key),
        m.remove(key).contains_key(other) == m.contains_key(other),
        m.contains_key(other) ==> m.remove(key)[other] == m[other],
{
}

/// The key written last carries the highest modification revision of the
/// store.
pub proof fn law_last_write_is_newest(before: Storage, key: Seq<u8>, value: Seq<u8>, lease: i64, other: Seq<u8>)
    requires
        before.wf(),
        before.revision_spec() < i64::MAX,
        after_put(before@, key, value, lease, before.revision_spec() as int).contains_key(other),
    ensures
        after_put(before@, key, value, lease, before.revision_spec() as int)[other].mod_revision
            <= after_put(before@, key, value, lease, before.revision_spec() as int)[key].mod_revision,
{
    if other != key {
        before.lemma_bounds(other);
    }
}

} // verus!
