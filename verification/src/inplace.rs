//! The in-place store cell: a lock-protected state object mutated directly,
//! with no copy and no snapshot.
//!
//! One reader-writer lock serializes all access: readers exclude writers and
//! writers exclude readers and each other, so a blocked writer's changes
//! happen on the one and only live instance. This is the strategy for state
//! objects that do not support independent duplication.
//!
//! Every value that enters the cell is proved to satisfy the invariant the
//! cell was created with, and every read view satisfies it: between any two
//! operations the cell holds a fully committed value, never a partial
//! mutation.

use vstd::prelude::*;
use vstd::rwlock::RwLock;
use vstd::rwlock::WriteHandle;
use crate::field::Field;

verus! {

/// The in-place store cell. It owns exactly one authoritative state object,
/// held directly behind a reader-writer lock, together with the invariant
/// (`inv`) that every committed value satisfies.
#[verifier::reject_recursive_types(S)]
pub struct InPlaceStore<S> {
    inv: Ghost<spec_fn(S) -> bool>,
    cell: RwLock<S, spec_fn(S) -> bool>,
}

impl<S> InPlaceStore<S> {
    /// The committed-value invariant this cell was created with: every value
    /// ever committed to the cell satisfies it, and every value a reader
    /// observes satisfies it.
    pub closed spec fn inv(&self) -> spec_fn(S) -> bool {
        self.inv@
    }

    #[verifier::type_invariant]
    spec fn wf(&self) -> bool {
        forall|s: S| #[trigger] self.cell.inv(s) <==> (self.inv@)(s)
    }

    /// A fresh store holding `init` as its first committed value, under the
    /// caller-chosen committed-value invariant `inv`.
    pub fn new_with_invariant(init: S, Ghost(inv): Ghost<spec_fn(S) -> bool>) -> (store:
        InPlaceStore<S>)
        requires
            inv(init),
        ensures
            store.inv() == inv,
    {
        let cell = RwLock::new(init, Ghost(inv));
        InPlaceStore { inv: Ghost(inv), cell }
    }

    /// A fresh store holding `init` as its first committed value, with no
    /// committed-value invariant: every value of `S` may be committed.
    pub fn new(init: S) -> (store: InPlaceStore<S>)
        ensures
            forall|s: S| #[trigger] (store.inv())(s),
    {
        InPlaceStore::new_with_invariant(init, Ghost(|s: S| true))
    }

    /// Unconditionally replace the current state object with `new_value`,
    /// overwriting the one live instance under exclusive access.
    pub fn write(&self, new_value: S)
        requires
            (self.inv())(new_value),
    {
        proof {
            use_type_invariant(self);
        }
        let (_old, handle) = self.cell.acquire_write();
        handle.release_write(new_value);
    }

    /// Acquire a read view, apply the caller-supplied pure `transform` to
    /// the field addressed by `field`, and return the transform's result.
    /// The read view is released before `get` returns, and the transform
    /// must not re-enter this store: a reentrant call on the same cell
    /// deadlocks under this variant. The result was computed from the field
    /// of some fully committed value.
    pub fn get<F: Field<S>, R, T: FnOnce(&F::FieldType) -> R>(
        &self,
        field: &F,
        transform: T,
    ) -> (r: R)
        requires
            forall|s: S|
                #[trigger] (self.inv())(s) ==> call_requires(transform, (&field.view_of(s),)),
        ensures
            exists|s: S| (self.inv())(s) && call_ensures(transform, (&field.view_of(s),), r),
    {
        proof {
            use_type_invariant(self);
        }
        let handle = self.cell.acquire_read();
        let ghost committed: S = handle.view();
        let field_ref = field.select(handle.borrow());
        let r = transform(field_ref);
        proof {
            assert((self.inv())(committed) && call_ensures(
                transform,
                (&field.view_of(committed),),
                r,
            ));
        }
        handle.release_read();
        r
    }

    /// Mutate exactly one field of the live instance, atomically with
    /// respect to other writers. No duplication happens and no exclusive
    /// ownership beyond the lock is needed, so the mutation cannot be
    /// refused. The field assignment must preserve the committed-value
    /// invariant.
    pub fn set<F: Field<S>>(&self, field: &F, value: F::FieldType)
        requires
            forall|s: S| #[trigger] (self.inv())(s) ==> (self.inv())(field.updated(s, value)),
    {
        proof {
            use_type_invariant(self);
        }
        let (mut current, handle) = self.cell.acquire_write();
        proof {
            assert((self.inv())(field.updated(current, value)));
        }
        field.set(&mut current, value);
        handle.release_write(current);
    }

    /// Apply an arbitrary whole-object mutation to the live instance,
    /// atomically with respect to other writers: the one critical section
    /// makes multi-field, cross-field-consistent edits safe. The mutator
    /// must preserve the committed-value invariant; it runs on a fully
    /// committed value, and its result becomes the new committed value.
    pub fn update<F: FnOnce(S) -> S>(&self, mutator: F)
        requires
            forall|s: S| #[trigger] (self.inv())(s) ==> call_requires(mutator, (s,)),
            forall|s: S, t: S|
                (self.inv())(s) && #[trigger] call_ensures(mutator, (s,), t) ==> (self.inv())(t),
        ensures
            exists|s: S, t: S| (self.inv())(s) && #[trigger] call_ensures(mutator, (s,), t),
    {
        let (current, guard) = self.begin_update();
        let ghost taken: S = current;
        let next = mutator(current);
        proof {
            assert((self.inv())(taken) && call_ensures(mutator, (taken,), next));
        }
        guard.commit(next);
    }

    /// Begin a whole-object update by hand: acquire the writer's critical
    /// section and take the live instance out of it. The store stays locked
    /// until the returned guard commits; this is the seam on which a mutator
    /// that must suspend mid-update (asynchronous work) is built outside the
    /// store.
    pub fn begin_update(&self) -> (r: (S, InPlaceUpdateGuard<'_, S>))
        ensures
            (self.inv())(r.0),
            r.1.inv() == self.inv(),
    {
        proof {
            use_type_invariant(self);
        }
        let (current, handle) = self.cell.acquire_write();
        (current, InPlaceUpdateGuard { inv: Ghost(self.inv@), handle })
    }
}

/// The writer's critical section of an [`InPlaceStore`], between
/// [`InPlaceStore::begin_update`] and [`InPlaceUpdateGuard::commit`]. While
/// a guard is alive, no reader or other writer can enter the cell.
#[verifier::reject_recursive_types(S)]
pub struct InPlaceUpdateGuard<'a, S> {
    inv: Ghost<spec_fn(S) -> bool>,
    handle: WriteHandle<'a, S, spec_fn(S) -> bool>,
}

impl<'a, S> InPlaceUpdateGuard<'a, S> {
    /// The committed-value invariant of the store this guard locks.
    pub closed spec fn inv(&self) -> spec_fn(S) -> bool {
        self.inv@
    }

    #[verifier::type_invariant]
    spec fn wf(self) -> bool {
        forall|s: S| #[trigger] self.handle.rwlock().inv(s) <==> (self.inv@)(s)
    }

    /// Commit `new_value` as the new authoritative value and release the
    /// writer's critical section.
    pub fn commit(self, new_value: S)
        requires
            (self.inv())(new_value),
    {
        proof {
            use_type_invariant(&self);
        }
        let InPlaceUpdateGuard { inv: _, handle } = self;
        handle.release_write(new_value);
    }
}

} // verus!
