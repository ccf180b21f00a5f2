//! The counter-and-label scenario, on both cell variants.

use crete::cow::CowStore;
use crete::field::Duplicable;
use crete::field::Field;
use crete::inplace::InPlaceStore;
use crete::state::AppState;
use crete::state::CountField;
use crete::state::LabelField;

#[test]
fn cow_set_then_select_round_trip() {
    let store = CowStore::new(AppState::new());
    store.set(&CountField, 5).unwrap();
    assert_eq!(store.select(&CountField), 5);
    assert_eq!(store.select(&LabelField), String::new());
}

#[test]
fn cow_update_sets_both_fields() {
    let store = CowStore::new(AppState::new());
    store.set(&CountField, 5).unwrap();
    store
        .update(|mut s: AppState| {
            s.count = s.count + 1;
            s.label = "five".to_owned();
            s
        })
        .unwrap();
    assert_eq!(store.select(&CountField), 6);
    assert_eq!(store.select(&LabelField), "five".to_owned());
}

#[test]
fn inplace_set_then_get_round_trip() {
    let store = InPlaceStore::new(AppState::new());
    store.set(&CountField, 5);
    assert_eq!(store.get(&CountField, |v: &u64| *v), 5);
    assert_eq!(store.get(&LabelField, |v: &String| v.duplicate()), String::new());
}

#[test]
fn inplace_update_sets_both_fields() {
    let store = InPlaceStore::new(AppState::new());
    store.set(&CountField, 5);
    store.update(|mut s: AppState| {
        s.count = s.count + 1;
        s.label = "five".to_owned();
        s
    });
    assert_eq!(store.get(&CountField, |v: &u64| *v), 6);
    assert_eq!(store.get(&LabelField, |v: &String| v.duplicate()), "five".to_owned());
}

#[test]
fn selectors_address_their_field_only() {
    let mut s = AppState::new();
    CountField.set(&mut s, 9);
    assert_eq!(*CountField.select(&s), 9);
    assert_eq!(*LabelField.select(&s), String::new());
    LabelField.set(&mut s, "x".to_owned());
    assert_eq!(*s.select_ref(&CountField), 9);
    assert_eq!(*s.select_ref(&LabelField), "x".to_owned());
}

#[test]
fn default_state_is_fresh() {
    let s = AppState::default();
    assert_eq!(s.count, 0);
    assert_eq!(s.label, String::new());
}

#[test]
fn duplicate_is_equal_and_independent() {
    let mut s = AppState::new();
    s.count = 3;
    s.label = "abc".to_owned();
    let mut d = s.duplicate();
    assert_eq!(d.count, 3);
    assert_eq!(d.label, "abc".to_owned());
    d.count = 4;
    d.label = "xyz".to_owned();
    assert_eq!(s.count, 3);
    assert_eq!(s.label, "abc".to_owned());
}
