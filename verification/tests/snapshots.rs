//! Snapshot behaviour of the copy-on-write cell: isolation of readers,
//! fail-fast refusal while a snapshot is shared, and the whole-object
//! operations.

use crete::cow::CowStore;
use crete::cow::StoreError;
use crete::state::AppState;
use crete::state::CountField;
use crete::inplace::InPlaceStore;

#[test]
fn snapshot_keeps_its_value_across_writes() {
    let store = CowStore::new(AppState::new());
    store.set(&CountField, 1).unwrap();
    let snap = store.read();
    store.write(AppState { count: 42, label: "later".to_owned() });
    assert_eq!(snap.value().count, 1);
    assert_eq!(snap.value().label, String::new());
    assert_eq!(store.read().value().count, 42);
}

#[test]
fn shared_snapshots_observe_one_value() {
    let store = CowStore::new(AppState::new());
    store.set(&CountField, 8).unwrap();
    let snap = store.read();
    let other = snap.share();
    assert_eq!(snap.value().count, other.value().count);
}

#[test]
fn mutation_fails_fast_while_snapshot_shared() {
    let store = CowStore::new(AppState::new());
    let snap = store.read();
    let refused = store.set(&CountField, 7);
    assert_eq!(refused, Err(StoreError::SnapshotShared));
    assert_eq!(snap.value().count, 0);
    drop(snap);
    assert_eq!(store.set(&CountField, 7), Ok(()));
    assert_eq!(store.select(&CountField), 7);
}

#[test]
fn update_fails_fast_while_snapshot_shared() {
    let store = CowStore::new(AppState::new());
    let snap = store.read();
    let refused = store.update(|s: AppState| s);
    assert_eq!(refused, Err(StoreError::SnapshotShared));
    drop(snap);
    assert_eq!(store.update(|s: AppState| s), Ok(()));
}

#[test]
fn refusal_diagnostic_names_the_shared_snapshot() {
    let message = StoreError::SnapshotShared.describe();
    assert_eq!(message, "snapshot still shared: a lingering read result holds the current snapshot");
}

#[test]
fn clone_state_is_independent_of_the_store() {
    let store = CowStore::new(AppState::new());
    store.set(&CountField, 11).unwrap();
    let mut copy = store.clone_state();
    copy.count = 99;
    assert_eq!(store.select(&CountField), 11);
}

#[test]
fn begin_update_commits_atomically() {
    let store = CowStore::new(AppState::new());
    let (mut s, guard) = store.begin_update().unwrap();
    s.count = s.count + 1;
    s.label = "one".to_owned();
    guard.commit(s);
    assert_eq!(store.select(&CountField), 1);
}

#[test]
fn inplace_begin_update_commits_atomically() {
    let store = InPlaceStore::new(AppState::new());
    let (mut s, guard) = store.begin_update();
    s.count = s.count + 5;
    guard.commit(s);
    assert_eq!(store.get(&CountField, |v: &u64| *v), 5);
}

#[test]
fn inplace_write_replaces_the_instance() {
    let store = InPlaceStore::new(AppState::new());
    store.write(AppState { count: 13, label: "w".to_owned() });
    assert_eq!(store.get(&CountField, |v: &u64| *v), 13);
}
