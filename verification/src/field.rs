//! The field selector protocol: typed capability tokens that address one
//! field of a state object, and the duplication capability that decides
//! which cell strategy a state object supports.

use vstd::prelude::*;

verus! {

/// A typed capability token addressing exactly one field of the state object
/// `S`.
///
/// `view_of` is the spec-level projection of the addressed field, and
/// `updated` is the whole state with only that field replaced. The two
/// executable operations, `select` and `set`, are contracted against those
/// two spec functions, so a selector can neither read nor disturb any field
/// other than its own. A selector is stateless; it carries no data and has
/// no effect beyond the one assignment `set` performs.
///
/// A selector for a field of `S` applies only to `S`: the trait is
/// parameterised by the state-object type, so selectors of different state
/// objects are not interchangeable.
pub trait Field<S>: Sized {
    /// The type of the addressed field's value.
    type FieldType;

    /// The value of the addressed field in state `s`.
    spec fn view_of(&self, s: S) -> Self::FieldType;

    /// State `s` with the addressed field replaced by `v` and every other
    /// field left exactly as it was.
    spec fn updated(&self, s: S, v: Self::FieldType) -> S;

    /// Read-only projection: a reference to the addressed field of `store`.
    fn select<'a>(&self, store: &'a S) -> (r: &'a Self::FieldType)
        ensures
            *r == self.view_of(*store),
    ;

    /// Replace the addressed field of `store` with `value`, requiring
    /// exclusive access to `store` and touching nothing else.
    fn set(&self, store: &mut S, value: Self::FieldType)
        ensures
            *final(store) == self.updated(*old(store), value),
    ;

    /// Reading a field just written yields the written value: every
    /// implementation must prove the round trip through its own field.
    proof fn lemma_set_view(&self, s: S, v: Self::FieldType)
        ensures
            self.view_of(self.updated(s, v)) == v,
    ;
}

/// The capability to produce an independent copy of a value, with the copy
/// provably equal to the original.
///
/// A state object that implements this supports the copy-on-write cell
/// strategy: snapshots can be duplicated into fresh owned values without
/// affecting the store. The derived `Clone` says nothing the verifier can
/// use, so duplication is its own verified operation here.
pub trait Duplicable: Sized {
    /// An independent, equal copy of `self`.
    fn duplicate(&self) -> (r: Self)
        ensures
            r == *self,
    ;
}

impl Duplicable for u64 {
    /// A copy of the number.
    fn duplicate(&self) -> (r: u64)
        ensures
            r == *self,
    {
        *self
    }
}

impl Duplicable for bool {
    /// A copy of the flag.
    fn duplicate(&self) -> (r: bool)
        ensures
            r == *self,
    {
        *self
    }
}

impl Duplicable for String {
    /// A fresh string holding the same text.
    fn duplicate(&self) -> (r: String)
        ensures
            r == *self,
    {
        self.clone()
    }
}

} // verus!
