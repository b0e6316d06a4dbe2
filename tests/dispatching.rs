use compressor::dispatch::{Dispatcher, Next};
use compressor::error::CoreError;
use compressor::event::{ChangeEvent, ObjectRecord};
use compressor::upload::resolve_target;

fn record(bucket: &str, key: &str) -> ObjectRecord {
    ObjectRecord::new(bucket.to_string(), key.to_string()).unwrap()
}

#[test]
fn empty_key_is_malformed() {
    match ObjectRecord::new("b".to_string(), String::new()) {
        Err(e) => assert!(matches!(e, CoreError::Deserialization(_))),
        Ok(_) => panic!("an empty key must be refused"),
    }
}

#[test]
fn record_keeps_its_fields() {
    let r = record("src", "photos/cat.png");
    assert_eq!(r.source_bucket(), "src");
    assert_eq!(r.source_key(), "photos/cat.png");
}

#[test]
fn target_needs_configured_bucket() {
    let r = record("src", "photo.png");
    let e = resolve_target(&None, &r).err().unwrap();
    assert!(matches!(e, CoreError::Config(_)));
    let e = resolve_target(&Some(String::new()), &r).err().unwrap();
    assert!(matches!(e, CoreError::Config(_)));
}

#[test]
fn target_uses_bucket_and_derived_key() {
    let r = record("src", "in/photo.png");
    let t = resolve_target(&Some("dst".to_string()), &r).unwrap();
    assert_eq!(t.bucket_name(), "dst");
    assert_eq!(t.object_key(), "photo.gz");
}

#[test]
fn fetch_failure_stops_before_later_records() {
    let event = ChangeEvent::new(vec![record("src", "a.txt"), record("src", "b.txt")]);
    let mut d = Dispatcher::new(event);
    let first = d.pending().unwrap();
    assert_eq!(first.source_key(), "a.txt");
    let next = d.on_compressed(Err(CoreError::Fetch("no such key".to_string())), &Some("dst".to_string()));
    assert!(matches!(next, Next::Stop));
    assert!(d.pending().is_none());
    assert_eq!(d.finish(), Err(CoreError::Fetch("no such key".to_string())));
}

#[test]
fn upload_failure_is_contained() {
    let event = ChangeEvent::new(vec![record("src", "a.txt")]);
    let mut d = Dispatcher::new(event);
    assert!(d.pending().is_some());
    match d.on_compressed(Ok(vec![1, 2, 3]), &None) {
        Next::Skip(e) => {
            assert!(matches!(e, CoreError::Config(_)));
            assert!(e.is_contained());
        }
        _ => panic!("a missing destination must skip the upload"),
    }
    assert!(d.pending().is_none());
    assert_eq!(d.finish(), Ok(()));
}

#[test]
fn every_record_gets_an_upload_order() {
    let event = ChangeEvent::new(vec![record("src", "x/a.csv"), record("src", "b")]);
    assert_eq!(event.len(), 2);
    let mut d = Dispatcher::new(event);
    let mut keys = Vec::new();
    while d.pending().is_some() {
        match d.on_compressed(Ok(vec![9]), &Some("dst".to_string())) {
            Next::Upload(order) => {
                assert_eq!(order.target.bucket_name(), "dst");
                assert_eq!(order.payload, vec![9]);
                keys.push(order.target.object_key().to_string());
            }
            _ => panic!("expected an upload order"),
        }
    }
    assert_eq!(keys, vec!["a.gz".to_string(), "b.gz".to_string()]);
    assert_eq!(d.finish(), Ok(()));
}

#[test]
fn empty_event_succeeds() {
    let d = Dispatcher::new(ChangeEvent::new(Vec::new()));
    assert!(d.pending().is_none());
    assert_eq!(d.finish(), Ok(()));
}

#[test]
fn error_descriptions_and_policy() {
    let e = CoreError::Put("access denied".to_string());
    assert_eq!(e.description(), "access denied");
    assert!(e.is_contained());
    assert!(!CoreError::Encode("x".to_string()).is_contained());
    assert!(!CoreError::Fetch("x".to_string()).is_contained());
    assert!(!CoreError::Deserialization("x".to_string()).is_contained());
}

#[test]
fn error_text_carries_its_label() {
    assert_eq!(CoreError::Fetch("no such key".to_string()).to_string(), "S3 get error: no such key");
    assert_eq!(CoreError::Put("denied".to_string()).to_string(), "S3 put error: denied");
    assert_eq!(CoreError::Encode("x".to_string()).to_string(), "IO error: x");
    assert_eq!(CoreError::Config("unset".to_string()).to_string(), "environment variable error: unset");
    assert_eq!(CoreError::Deserialization("bad".to_string()).to_string(), "event error: bad");
}
