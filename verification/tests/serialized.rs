//! Serialized-writer scenarios: no update and no appended character is
//! lost across a long run of whole-object mutations.

use crete::cow::CowStore;
use crete::inplace::InPlaceStore;
use crete::laws::append_label;
use crete::laws::increment_count;
use crete::state::AppState;
use crete::state::CountField;
use crete::state::LabelField;

#[test]
fn serialized_increments_lose_no_update() {
    let store = CowStore::new(AppState::new());
    for _ in 0..1000 {
        store.update(increment_count).unwrap();
    }
    assert_eq!(store.select(&CountField), 1000);
}

#[test]
fn inplace_serialized_increments_lose_no_update() {
    let store = InPlaceStore::new(AppState::new());
    for _ in 0..1000 {
        store.update(increment_count);
    }
    assert_eq!(store.get(&CountField, |v: &u64| *v), 1000);
}

#[test]
fn interleaved_appends_lose_no_character() {
    let store = CowStore::new(AppState::new());
    for _ in 0..1000 {
        store.update(|s: AppState| append_label(s, "a")).unwrap();
        store.update(|s: AppState| append_label(s, "b")).unwrap();
    }
    let label = store.select(&LabelField);
    assert_eq!(label.len(), 2000);
    assert_eq!(label.chars().filter(|c| *c == 'a').count(), 1000);
    assert_eq!(label.chars().filter(|c| *c == 'b').count(), 1000);
}

#[test]
fn append_keeps_the_counter() {
    let store = CowStore::new(AppState::new());
    store.set(&CountField, 21).unwrap();
    store.update(|s: AppState| append_label(s, "tail")).unwrap();
    assert_eq!(store.select(&CountField), 21);
    assert_eq!(store.select(&LabelField), "tail".to_owned());
}

#[test]
fn increment_reaches_the_top_of_the_range() {
    let store = CowStore::new(AppState::new());
    store.set(&CountField, u64::MAX - 1).unwrap();
    store.update(increment_count).unwrap();
    assert_eq!(store.select(&CountField), u64::MAX);
}

#[test]
fn increment_keeps_the_label() {
    let s = AppState { count: 7, label: "kept".to_owned() };
    let r = increment_count(s);
    assert_eq!(r.count, 8);
    assert_eq!(r.label, "kept".to_owned());
}
