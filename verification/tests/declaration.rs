//! The declaration boundary: option parsing, rejection of malformed input,
//! and the choice of cell strategy.

use crete::options::parse_options;
use crete::options::choose_variant;
use crete::options::wire_store;
use crete::options::CellVariant;
use crete::options::OptionToken;
use crete::options::OptionsError;
use crete::options::StoreOptions;
use crete::options::WiredStore;
use crete::state::AppState;
use crete::state::CountField;

fn word(w: &str) -> OptionToken {
    OptionToken::Word(w.to_owned())
}

#[test]
fn empty_options_mean_no_clone() {
    let r = parse_options(&vec![]);
    assert_eq!(r, Ok(StoreOptions { clone_declared: false }));
}

#[test]
fn clone_option_is_recognized() {
    let r = parse_options(&vec![word("Clone")]);
    assert_eq!(r, Ok(StoreOptions { clone_declared: true }));
}

#[test]
fn duplicate_clone_is_rejected() {
    let r = parse_options(&vec![word("Clone"), OptionToken::Comma, word("Clone")]);
    assert_eq!(r, Err(OptionsError::DuplicateClone));
}

#[test]
fn unknown_word_is_rejected() {
    let r = parse_options(&vec![word("Debug")]);
    assert_eq!(r, Err(OptionsError::UnexpectedWord));
}

#[test]
fn trailing_comma_is_rejected() {
    let r = parse_options(&vec![word("Clone"), OptionToken::Comma]);
    assert_eq!(r, Err(OptionsError::TrailingComma));
}

#[test]
fn missing_comma_is_rejected() {
    let r = parse_options(&vec![word("Clone"), word("Clone")]);
    assert_eq!(r, Err(OptionsError::MissingComma));
}

#[test]
fn leading_comma_is_rejected() {
    let r = parse_options(&vec![OptionToken::Comma]);
    assert_eq!(r, Err(OptionsError::MisplacedComma));
}

#[test]
fn rejection_diagnostics_name_their_cause() {
    assert_eq!(OptionsError::DuplicateClone.describe(), "duplicate 'Clone' attribute");
    assert_eq!(OptionsError::UnexpectedWord.describe(), "unexpected attribute: expected 'Clone'");
    assert_eq!(OptionsError::TrailingComma.describe(), "trailing comma not allowed");
    assert_eq!(OptionsError::MissingComma.describe(), "expected a comma between attributes");
    assert_eq!(OptionsError::MisplacedComma.describe(), "expected an attribute, found a comma");
}

#[test]
fn derive_scan_finds_clone() {
    assert!(crete::options::derive_list_declares_clone(&vec![
        "Debug".to_owned(),
        "Clone".to_owned(),
        "Default".to_owned(),
    ]));
    assert!(!crete::options::derive_list_declares_clone(&vec!["Debug".to_owned()]));
    assert!(!crete::options::derive_list_declares_clone(&vec![]));
}

#[test]
fn duplication_chooses_copy_on_write() {
    let declared = StoreOptions { clone_declared: true };
    let underived = StoreOptions { clone_declared: false };
    assert_eq!(choose_variant(&declared, false), CellVariant::CopyOnWrite);
    assert_eq!(choose_variant(&underived, true), CellVariant::CopyOnWrite);
    assert_eq!(choose_variant(&declared, true), CellVariant::CopyOnWrite);
    assert_eq!(choose_variant(&underived, false), CellVariant::InPlace);
}

#[test]
fn wire_store_builds_the_chosen_variant() {
    match wire_store(CellVariant::CopyOnWrite, AppState::new()) {
        WiredStore::CopyOnWrite(store) => {
            store.set(&CountField, 2).unwrap();
            assert_eq!(store.select(&CountField), 2);
        },
        WiredStore::InPlace(_) => panic!("expected the copy-on-write wiring"),
    }
    match wire_store(CellVariant::InPlace, AppState::new()) {
        WiredStore::InPlace(store) => {
            store.set(&CountField, 3);
            assert_eq!(store.get(&CountField, |v: &u64| *v), 3);
        },
        WiredStore::CopyOnWrite(_) => panic!("expected the in-place wiring"),
    }
}
