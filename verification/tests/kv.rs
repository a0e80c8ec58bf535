use remote_memory::client::MemoryClient;
use remote_memory::errors::{AllocationError, MemoryError};
use remote_memory::kv::KeyValueStore;
use remote_memory::memory::DataNode;
use remote_memory::rpc::MemoryService;

fn fresh_store() -> KeyValueStore {
    let client = MemoryClient::new(MemoryService::new(DataNode::new()));
    KeyValueStore::new(client).unwrap()
}

#[test]
fn set_then_get_round_trips() {
    let mut store = fresh_store();
    store.set("name", b"Alice").unwrap();
    assert_eq!(store.get("name").unwrap(), Some(b"Alice".to_vec()));
}

#[test]
fn get_of_unknown_key_is_none() {
    let mut store = fresh_store();
    assert_eq!(store.get("missing").unwrap(), None);
}

#[test]
fn several_keys_round_trip_independently() {
    let mut store = fresh_store();
    store.set("name", b"Alice").unwrap();
    store.set("age", b"30").unwrap();
    store.set("city", b"New York").unwrap();
    assert_eq!(store.get("age").unwrap(), Some(b"30".to_vec()));
    assert_eq!(store.get("name").unwrap(), Some(b"Alice".to_vec()));
    assert_eq!(store.get("city").unwrap(), Some(b"New York".to_vec()));
}

#[test]
fn overwrite_returns_the_new_value() {
    let mut store = fresh_store();
    store.set("age", b"30").unwrap();
    store.set("age", b"31").unwrap();
    assert_eq!(store.get("age").unwrap(), Some(b"31".to_vec()));
}

#[test]
fn overwrite_with_longer_and_shorter_values() {
    let mut store = fresh_store();
    store.set("k", b"short").unwrap();
    store.set("k", b"a considerably longer value").unwrap();
    assert_eq!(
        store.get("k").unwrap(),
        Some(b"a considerably longer value".to_vec())
    );
    store.set("k", b"x").unwrap();
    assert_eq!(store.get("k").unwrap(), Some(b"x".to_vec()));
}

#[test]
fn delete_existing_key_returns_true_and_forgets_it() {
    let mut store = fresh_store();
    store.set("city", b"New York").unwrap();
    assert_eq!(store.delete("city").unwrap(), true);
    assert_eq!(store.get("city").unwrap(), None);
}

#[test]
fn delete_missing_key_returns_false() {
    let mut store = fresh_store();
    assert_eq!(store.delete("missing").unwrap(), false);
}

#[test]
fn oversize_key_is_rejected_locally() {
    let mut store = fresh_store();
    let long_key = "k".repeat(257);
    let r = store.set(&long_key, b"v");
    assert_eq!(
        r,
        Err(MemoryError::AllocationError(
            AllocationError::InsufficientMemory
        ))
    );
    // The store stays usable and the key was not bound.
    assert_eq!(store.get(&long_key).unwrap(), None);
}

#[test]
fn oversize_value_is_rejected_locally() {
    let mut store = fresh_store();
    let big_value = vec![0u8; 1025];
    let r = store.set("k", &big_value);
    assert_eq!(
        r,
        Err(MemoryError::AllocationError(
            AllocationError::InsufficientMemory
        ))
    );
    assert_eq!(store.get("k").unwrap(), None);
}

#[test]
fn largest_accepted_key_and_value_round_trip() {
    let mut store = fresh_store();
    let key = "k".repeat(256);
    let value = vec![7u8; 1024];
    store.set(&key, &value).unwrap();
    assert_eq!(store.get(&key).unwrap(), Some(value));
}

#[test]
fn empty_value_round_trips() {
    let mut store = fresh_store();
    store.set("k", b"").unwrap();
    assert_eq!(store.get("k").unwrap(), Some(Vec::new()));
}

#[test]
fn values_round_trip_byte_for_byte() {
    let mut store = fresh_store();
    let value: Vec<u8> = (0..=255u8).collect();
    store.set("bytes", &value).unwrap();
    assert_eq!(store.get("bytes").unwrap(), Some(value));
}
