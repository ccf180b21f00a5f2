//! A demonstration state object with one selector per field, and the
//! field-independence laws that distinct selectors obey.

use vstd::prelude::*;
use crate::field::Duplicable;
use crate::field::Field;

verus! {

/// The demonstration state object: a numeric counter and a text label.
///
/// Exactly one field selector exists per field ([`CountField`] and
/// [`LabelField`]); the selector-to-field mapping is total and bijective.
pub struct AppState {
    /// A numeric field.
    pub count: u64,
    /// A text field.
    pub label: String,
}

impl AppState {
    /// A fresh state: counter zero, empty label.
    pub fn new() -> (s: AppState)
        ensures
            s.count == 0,
            s.label@ == Seq::<char>::empty(),
    {
        AppState { count: 0, label: String::new() }
    }

    /// Read-only projection of the field addressed by `field`.
    pub fn select_ref<'a, F: Field<AppState>>(&'a self, field: &F) -> (r: &'a F::FieldType)
        ensures
            *r == field.view_of(*self),
    {
        field.select(self)
    }
}

impl Default for AppState {
    /// The default state equals a fresh one.
    fn default() -> (s: AppState)
        ensures
            s.count == 0,
            s.label@ == Seq::<char>::empty(),
    {
        AppState::new()
    }
}

impl Duplicable for AppState {
    /// An independent copy: the counter is copied, the label is cloned.
    fn duplicate(&self) -> (r: AppState)
        ensures
            r == *self,
    {
        AppState { count: self.count, label: self.label.clone() }
    }
}

/// The selector for the `count` field of [`AppState`].
pub struct CountField;

/// The selector for the `label` field of [`AppState`].
pub struct LabelField;

impl Field<AppState> for CountField {
    type FieldType = u64;

    open spec fn view_of(&self, s: AppState) -> u64 {
        s.count
    }

    open spec fn updated(&self, s: AppState, v: u64) -> AppState {
        AppState { count: v, ..s }
    }

    fn select<'a>(&self, store: &'a AppState) -> (r: &'a u64)
        ensures
            *r == self.view_of(*store),
    {
        &store.count
    }

    fn set(&self, store: &mut AppState, value: u64)
        ensures
            *final(store) == self.updated(*old(store), value),
    {
        store.count = value;
    }

    proof fn lemma_set_view(&self, s: AppState, v: u64)
        ensures
            self.view_of(self.updated(s, v)) == v,
    {
    }
}

impl Field<AppState> for LabelField {
    type FieldType = String;

    open spec fn view_of(&self, s: AppState) -> String {
        s.label
    }

    open spec fn updated(&self, s: AppState, v: String) -> AppState {
        AppState { label: v, ..s }
    }

    fn select<'a>(&self, store: &'a AppState) -> (r: &'a String)
        ensures
            *r == self.view_of(*store),
    {
        &store.label
    }

    fn set(&self, store: &mut AppState, value: String)
        ensures
            *final(store) == self.updated(*old(store), value),
    {
        store.label = value;
    }

    proof fn lemma_set_view(&self, s: AppState, v: String)
        ensures
            self.view_of(self.updated(s, v)) == v,
    {
    }
}

/// Field independence: setting one field through its selector leaves the
/// other field's value exactly as it was, in both directions. Distinct
/// selectors address disjoint, non-overlapping parts of one state object.
pub proof fn lemma_field_independence(s: AppState, c: u64, l: String)
    ensures
        LabelField.view_of(CountField.updated(s, c)) == LabelField.view_of(s),
        CountField.view_of(LabelField.updated(s, l)) == CountField.view_of(s),
{
}

} // verus!
