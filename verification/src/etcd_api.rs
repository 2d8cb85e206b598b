//! The request handling of the key-value server: what each request does to
//! the store and what it answers. Reading requests from the network and
//! rendering answers as JSON is left to the caller.
use vstd::prelude::*;
use crate::codec::{base64_encode, base64_encoding};
use crate::errors::DockerError;
use crate::etcd::{EventType, EventView, KeyValue, KeyValueView, Storage, put_result};
use crate::bytes::slice_to_bytes;

verus! {

/// A request to the server.
#[derive(Debug, Clone)]
pub enum ApiRequest {
    /// Read one key.
    Get { key: String },
    /// Write one key; a missing lease means lease 0.
    Put { key: String, value: String, lease: Option<i64> },
    /// Delete one key.
    Delete { key: String },
    /// Read every key.
    List,
}

/// A stored pair as the server reports it: key and value in base64.
#[derive(Debug, Clone)]
pub struct KvRecord {
    /// The key, base64-encoded.
    pub key: String,
    /// The value, base64-encoded.
    pub value: String,
    /// The revision at which the key was created.
    pub create_revision: i64,
    /// The revision of the key's last change.
    pub mod_revision: i64,
    /// The key's version.
    pub version: i64,
    /// The key's lease.
    pub lease: i64,
}

/// The server's answer to a request.
#[derive(Debug, Clone)]
pub enum ApiReply {
    /// The pair read or written.
    Record(KvRecord),
    /// The answer to a delete: the removed pair, if there was one.
    Deleted(Option<KvRecord>),
    /// Every stored pair.
    Records(Vec<KvRecord>),
    /// The request failed.
    Failed(DockerError),
}

/// `r` reports the stored pair `kv`.
pub open spec fn reports(r: KvRecord, kv: KeyValueView) -> bool {
    &&& r.key@ == base64_encoding(kv.key)
    &&& r.value@ == base64_encoding(kv.value)
    &&& r.create_revision == kv.create_revision
    &&& r.mod_revision == kv.mod_revision
    &&& r.version == kv.version
    &&& r.lease == kv.lease
}

/// `r` reports the pair stored under `k` in `m`.
pub open spec fn reports_key(m: Map<Seq<u8>, KeyValueView>, k: Seq<u8>, r: KvRecord) -> bool {
    m.contains_key(k) && reports(r, m[k])
}

/// The server's report of a stored pair.
pub fn record_of(kv: &KeyValue) -> (r: KvRecord)
    ensures
        reports(r, kv@),
{
    KvRecord {
        key: base64_encode(kv.key.as_slice()),
        value: base64_encode(kv.value.as_slice()),
        create_revision: kv.create_revision,
        mod_revision: kv.mod_revision,
        version: kv.version,
        lease: kv.lease,
    }
}

/// The UTF-8 bytes of a string.
pub open spec fn utf8_of(s: Seq<char>) -> Seq<u8> {
    vstd::utf8::encode_utf8(s)
}

fn string_bytes(s: &String) -> (r: Vec<u8>)
    ensures
        r@ == utf8_of(s@),
{
    slice_to_bytes(s.as_str().as_bytes())
}

/// `rs` reports every pair of `m` exactly once, and nothing else: the
/// records stand for a list of distinct stored keys that covers `m`.
pub open spec fn reports_all(m: Map<Seq<u8>, KeyValueView>, rs: Seq<KvRecord>) -> bool {
    exists|ks: Seq<Seq<u8>>|
        #![trigger ks.no_duplicates(), ks.len()]
        {
            &&& ks.len() == rs.len()
            &&& ks.no_duplicates()
            &&& forall|i: int| 0 <= i < rs.len() ==> reports_key(m, ks[i], #[trigger] rs[i])
            &&& forall|k: Seq<u8>| #[trigger] m.contains_key(k) ==> ks.contains(k)
        }
}

/// `reply` is the answer to a listing of a store holding `m`.
pub open spec fn list_answer(m: Map<Seq<u8>, KeyValueView>, reply: ApiReply) -> bool {
    reply matches ApiReply::Records(rs) && reports_all(m, rs@)
}

/// Reports of every stored pair.
pub fn records_of_all(storage: &Storage) -> (rs: Vec<KvRecord>)
    requires
        storage.wf(),
    ensures
        reports_all(storage@, rs@),
{
    let kvs = storage.list();
    let mut out: Vec<KvRecord> = Vec::new();
    let mut i: usize = 0;
    while i < kvs.len()
        invariant
            i <= kvs.len(),
            out.len() == i,
            forall|j: int| 0 <= j < i ==> reports(#[trigger] out@[j], kvs@[j]@),
        decreases kvs.len() - i,
    {
        out.push(record_of(&kvs[i]));
        i = i + 1;
    }
    proof {
        let ks = Seq::new(kvs.len() as nat, |j: int| kvs@[j].key@);
        assert forall|j: int| 0 <= j < out.len() implies reports_key(storage@, ks[j], #[trigger] out@[j]) by {
            assert(storage@.contains_key(kvs@[j].key@));
        }
        assert forall|k: Seq<u8>| #[trigger] storage@.contains_key(k) implies ks.contains(k) by {
            let j = choose|j: int| 0 <= j < kvs.len() && kvs@[j].key@ == k;
            assert(ks[j] == k);
        }
        assert forall|a: int, b: int| 0 <= a < ks.len() && 0 <= b < ks.len() && a != b implies ks[a] != ks[b] by {
            if a < b {
                assert(kvs@[a].key@ != kvs@[b].key@);
            } else {
                assert(kvs@[b].key@ != kvs@[a].key@);
            }
        }
        assert(ks.no_duplicates());
        assert(ks.len() == out@.len());
        assert(reports_all(storage@, out@));
    }
    out
}

/// `reply` is the answer to a read of `key` from a store holding `m`: a report
/// of the stored pair, or a failure when the key is absent.
pub open spec fn get_answer(m: Map<Seq<u8>, KeyValueView>, key: Seq<char>, reply: ApiReply) -> bool {
    if m.contains_key(utf8_of(key)) {
        reply matches ApiReply::Record(r) && reports(r, m[utf8_of(key)])
    } else {
        reply is Failed
    }
}

/// The answer to a read of `key`.
pub fn handle_get(storage: &Storage, key: &String) -> (reply: ApiReply)
    requires
        storage.wf(),
    ensures
        get_answer(storage@, key@, reply),
{
    let k = string_bytes(key);
    match storage.get(k.as_slice()) {
        Ok(kv) => ApiReply::Record(record_of(&kv)),
        Err(e) => ApiReply::Failed(e),
    }
}

/// Carries out `req` on `storage` and says what to answer.
pub fn handle_request(storage: &mut Storage, req: ApiRequest) -> (reply: ApiReply)
    requires
        old(storage).wf(),
        match req {
            ApiRequest::Put { .. } => old(storage).revision_spec() < i64::MAX,
            ApiRequest::Delete { key } => old(storage)@.contains_key(utf8_of(key@)) ==> old(
                storage,
            ).revision_spec() < i64::MAX,
            _ => true,
        },
    ensures
        final(storage).wf(),
        match req {
            ApiRequest::Get { key } => get_answer(old(storage)@, key@, reply)
                && final(storage)@ == old(storage)@
                && final(storage).revision_spec() == old(storage).revision_spec()
                && final(storage).pending_events() == old(storage).pending_events(),
            ApiRequest::Put { key, value, lease } => {
                let k = utf8_of(key@);
                let l = match lease { Some(l) => l, None => 0 };
                let prev = if old(storage)@.contains_key(k) { Some(old(storage)@[k]) } else { None };
                let kv = put_result(prev, k, utf8_of(value@), l, old(storage).revision_spec() as int);
                &&& final(storage)@ == old(storage)@.insert(k, kv)
                &&& final(storage).revision_spec() == old(storage).revision_spec() + 1
                &&& final(storage).pending_events() == old(storage).pending_events().push(
                    EventView { event_type: EventType::Put, kv: kv, prev_kv: prev },
                )
                &&& reply matches ApiReply::Record(r) && reports(r, kv)
            },
            ApiRequest::Delete { key } => {
                let k = utf8_of(key@);
                &&& final(storage)@ == old(storage)@.remove(k)
                &&& if old(storage)@.contains_key(k) {
                    &&& final(storage).revision_spec() == old(storage).revision_spec() + 1
                    &&& final(storage).pending_events() == old(storage).pending_events().push(
                        EventView { event_type: EventType::Delete, kv: old(storage)@[k], prev_kv: None },
                    )
                    &&& reply matches ApiReply::Deleted(Some(r)) && reports(r, old(storage)@[k])
                } else {
                    &&& final(storage).revision_spec() == old(storage).revision_spec()
                    &&& final(storage).pending_events() == old(storage).pending_events()
                    &&& reply matches ApiReply::Deleted(None)
                }
            },
            ApiRequest::List => {
                &&& final(storage)@ == old(storage)@
                &&& final(storage).revision_spec() == old(storage).revision_spec()
                &&& final(storage).pending_events() == old(storage).pending_events()
                &&& list_answer(old(storage)@, reply)
            },
        },
{
    match &req {
        ApiRequest::Get { key } => handle_get(storage, key),
        ApiRequest::Put { key, value, lease } => {
            let k = string_bytes(key);
            let v = string_bytes(value);
            let l = match *lease {
                Some(l) => l,
                None => 0,
            };
            match storage.put(k, v, l) {
                Ok(kv) => ApiReply::Record(record_of(&kv)),
                Err(e) => ApiReply::Failed(e),
            }
        },
        ApiRequest::Delete { key } => {
            let k = string_bytes(key);
            match storage.delete(k.as_slice()) {
                Ok(Some(kv)) => ApiReply::Deleted(Some(record_of(&kv))),
                Ok(None) => ApiReply::Deleted(None),
                Err(e) => ApiReply::Failed(e),
            }
        },
        ApiRequest::List => {
            let out = records_of_all(storage);
            ApiReply::Records(out)
        },
    }
}

} // verus!
