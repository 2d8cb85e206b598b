use rusty_docker::etcd::{EventType, Storage};
use rusty_docker::etcd_api::{handle_request, ApiReply, ApiRequest};

#[test]
fn etcd_read_after_write() {
    let mut s = Storage::new();
    assert_eq!(s.get_revision(), 1);
    let kv = s.put(b"a".to_vec(), b"1".to_vec(), 0).unwrap();
    assert_eq!(kv.value, b"1".to_vec());
    assert_eq!(kv.create_revision, 2);
    assert_eq!(kv.mod_revision, 2);
    assert_eq!(kv.version, 1);
    let got = s.get(b"a").unwrap();
    assert_eq!(got.value, b"1".to_vec());
    assert_eq!(s.get_revision(), 2);
}

#[test]
fn etcd_overwrite_keeps_creation_and_counts_versions() {
    let mut s = Storage::new();
    s.put(b"k".to_vec(), b"v1".to_vec(), 0).unwrap();
    s.put(b"other".to_vec(), b"x".to_vec(), 0).unwrap();
    let kv = s.put(b"k".to_vec(), b"v2".to_vec(), 7).unwrap();
    assert_eq!(kv.create_revision, 2);
    assert_eq!(kv.mod_revision, 4);
    assert_eq!(kv.version, 2);
    assert_eq!(kv.lease, 7);
    // The key written last carries the highest revision.
    for other in s.list() {
        assert!(other.mod_revision <= kv.mod_revision);
    }
    assert_eq!(s.get(b"other").unwrap().value, b"x".to_vec());
}

#[test]
fn etcd_delete_then_get_fails() {
    let mut s = Storage::new();
    s.put(b"a".to_vec(), b"1".to_vec(), 0).unwrap();
    let removed = s.delete(b"a").unwrap();
    assert_eq!(removed.unwrap().value, b"1".to_vec());
    assert_eq!(s.get_revision(), 3);
    assert!(s.get(b"a").is_err());
    // Deleting a missing key changes nothing.
    assert!(s.delete(b"a").unwrap().is_none());
    assert_eq!(s.get_revision(), 3);
}

#[test]
fn etcd_events_are_taken_once() {
    let mut s = Storage::new();
    s.put(b"a".to_vec(), b"1".to_vec(), 0).unwrap();
    s.delete(b"a").unwrap();
    let events = s.take_events();
    assert_eq!(events.len(), 2);
    assert!(matches!(events[0].event_type, EventType::Put));
    assert!(matches!(events[1].event_type, EventType::Delete));
    assert!(s.take_events().is_empty());
}

#[test]
fn etcd_api_reports_in_base64() {
    let mut s = Storage::new();
    let reply = handle_request(
        &mut s,
        ApiRequest::Put { key: "key".to_string(), value: "value".to_string(), lease: None },
    );
    match reply {
        ApiReply::Record(r) => {
            assert_eq!(r.key, "a2V5");
            assert_eq!(r.value, "dmFsdWU=");
            assert_eq!(r.version, 1);
            assert_eq!(r.lease, 0);
        }
        other => panic!("unexpected reply {:?}", other),
    }
    match handle_request(&mut s, ApiRequest::Get { key: "missing".to_string() }) {
        ApiReply::Failed(_) => {}
        other => panic!("unexpected reply {:?}", other),
    }
    match handle_request(&mut s, ApiRequest::List) {
        ApiReply::Records(rs) => assert_eq!(rs.len(), 1),
        other => panic!("unexpected reply {:?}", other),
    }
    match handle_request(&mut s, ApiRequest::Delete { key: "key".to_string() }) {
        ApiReply::Deleted(Some(r)) => assert_eq!(r.value, "dmFsdWU="),
        other => panic!("unexpected reply {:?}", other),
    }
}

#[test]
fn api_requests_record_events() {
    let mut s = Storage::new();
    handle_request(&mut s, ApiRequest::Put { key: "k".to_string(), value: "v1".to_string(), lease: None });
    handle_request(&mut s, ApiRequest::Put { key: "k".to_string(), value: "v2".to_string(), lease: Some(7) });
    handle_request(&mut s, ApiRequest::Get { key: "k".to_string() });
    handle_request(&mut s, ApiRequest::List);
    handle_request(&mut s, ApiRequest::Delete { key: "nope".to_string() });
    handle_request(&mut s, ApiRequest::Delete { key: "k".to_string() });
    let events = s.take_events();
    assert_eq!(events.len(), 3);
    assert!(matches!(events[0].event_type, EventType::Put));
    assert!(events[0].prev_kv.is_none());
    assert!(matches!(events[1].event_type, EventType::Put));
    assert_eq!(events[1].prev_kv.as_ref().unwrap().value, b"v1".to_vec());
    assert_eq!(events[1].kv.lease, 7);
    assert!(matches!(events[2].event_type, EventType::Delete));
    assert_eq!(events[2].kv.value, b"v2".to_vec());
}
