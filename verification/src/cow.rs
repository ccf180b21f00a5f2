//! The copy-on-write store cell: a lock-protected, shared, reference-counted,
//! immutable snapshot of the state object.
//!
//! Readers copy the current snapshot reference out under a read lock; a
//! snapshot, once returned, keeps its value for as long as the holder
//! retains it, whatever later writers commit, and observing it never takes
//! a lock again. A `read` issued while a writer's section is open does wait
//! for that section to close — and a mutation holds the section for the
//! whole run of its mutator. Writers produce a brand-new snapshot and swap
//! it in under the write lock.
//! Mutating in place is allowed only when no other holder retains the current
//! snapshot; otherwise the mutation is refused fast rather than proceeding on
//! shared state.
//!
//! Every value that enters the cell is proved to satisfy the invariant the
//! cell was created with, and every value a reader obtains satisfies it: a
//! reader can observe committed values only, never a partial mutation.

use vstd::prelude::*;
use vstd::rwlock::RwLock;
use vstd::rwlock::WriteHandle;
use std::sync::Arc;
use crate::field::Duplicable;
use crate::field::Field;

verus! {

/// Why a mutation was refused. Refusals are never retried by the store:
/// they signal a violated caller-discipline invariant, not a transient
/// fault.
#[derive(Clone, Copy, Debug, PartialEq, Eq, Structural)]
pub enum StoreError {
    /// A copy-on-write mutation found the current snapshot still shared:
    /// some other holder (typically a lingering `read` result) retains a
    /// reference, so the snapshot cannot be mutated in place.
    SnapshotShared,
}

impl StoreError {
    /// A diagnostic naming the violated invariant.
    pub fn describe(&self) -> (r: &'static str)
        ensures
            r@ == "snapshot still shared: a lingering read result holds the current snapshot"@,
    {
        match self {
            StoreError::SnapshotShared => {
                "snapshot still shared: a lingering read result holds the current snapshot"
            },
        }
    }
}

/// Relies on std's Arc::clone: the returned handle refers to the same
/// underlying value as `a`.
#[verifier::external_body]
fn arc_share<T>(a: &Arc<T>) -> (r: Arc<T>)
    ensures
        r == *a,
{
    Arc::clone(a)
}

/// Relies on std's Arc deref: a shared reference to the value `a` holds.
#[verifier::external_body]
fn arc_value<T>(a: &Arc<T>) -> (r: &T)
    ensures
        *a == *r,
{
    &**a
}

/// Relies on std's Arc::try_unwrap: yields the inner value when `a` is the
/// only reference to it, and otherwise hands `a` back unchanged.
#[verifier::external_body]
fn arc_take<T>(a: Arc<T>) -> (r: Result<T, Arc<T>>)
    ensures
        match r {
            Ok(t) => a == t,
            Err(e) => e == a,
        },
{
    Arc::try_unwrap(a)
}

/// An immutable, shareable reference to one committed state-object value.
///
/// The value a snapshot holds (`self@`) is fixed for the snapshot's whole
/// lifetime; sharing it hands out another reference to the same value.
pub struct Snapshot<S> {
    arc: Arc<S>,
    content: Ghost<S>,
}

impl<S> Snapshot<S> {
    /// The state value this snapshot holds.
    pub closed spec fn view(&self) -> S {
        self.content@
    }

    #[verifier::type_invariant]
    spec fn wf(self) -> bool {
        self.arc == self.content@
    }

    /// Wrap an owned state value as a fresh, unshared snapshot.
    pub fn new(value: S) -> (snap: Snapshot<S>)
        ensures
            snap@ == value,
    {
        let ghost content = value;
        Snapshot { arc: Arc::new(value), content: Ghost(content) }
    }

    /// A shared reference to the held value.
    pub fn value(&self) -> (r: &S)
        ensures
            *r == self@,
    {
        proof {
            use_type_invariant(self);
        }
        arc_value(&self.arc)
    }

    /// Another reference to the same value: both snapshots observe the one
    /// committed state, and neither is disturbed by later writes.
    pub fn share(&self) -> (r: Snapshot<S>)
        ensures
            r@ == self@,
    {
        proof {
            use_type_invariant(self);
        }
        let arc = arc_share(&self.arc);
        Snapshot { arc, content: Ghost(self.content@) }
    }

    /// Take the held value out, requiring exclusive ownership: succeeds
    /// exactly when no other holder retains a reference to this snapshot's
    /// value, and otherwise returns the snapshot unchanged.
    pub fn try_take(self) -> (r: Result<S, Snapshot<S>>)
        ensures
            match r {
                Ok(v) => v == self@,
                Err(s) => s@ == self@,
            },
    {
        proof {
            use_type_invariant(&self);
        }
        let Snapshot { arc, content } = self;
        match arc_take(arc) {
            Ok(v) => Ok(v),
            Err(e) => Err(Snapshot { arc: e, content }),
        }
    }
}

/// The copy-on-write store cell. It owns exactly one authoritative state
/// object at a time, held as a shared immutable snapshot behind a
/// reader-writer lock, together with the invariant (`inv`) that every
/// committed value satisfies.
///
/// The lock guards the one snapshot reference. A snapshot a reader already
/// holds is forever independent of the cell; taking a fresh one waits for
/// any open writer's section, which a mutation holds for the whole run of
/// its mutator.
#[verifier::reject_recursive_types(S)]
pub struct CowStore<S> {
    inv: Ghost<spec_fn(S) -> bool>,
    cell: RwLock<Snapshot<S>, spec_fn(Snapshot<S>) -> bool>,
}

impl<S> CowStore<S> {
    /// The committed-value invariant this cell was created with: every value
    /// ever committed to the cell satisfies it, and every value a reader
    /// observes satisfies it.
    pub closed spec fn inv(&self) -> spec_fn(S) -> bool {
        self.inv@
    }

    #[verifier::type_invariant]
    spec fn wf(&self) -> bool {
        forall|x: Snapshot<S>| #[trigger] self.cell.inv(x) <==> (self.inv@)(x@)
    }

    /// A fresh store holding `init` as its first committed value, under the
    /// caller-chosen committed-value invariant `inv`.
    pub fn new_with_invariant(init: S, Ghost(inv): Ghost<spec_fn(S) -> bool>) -> (store: CowStore<
        S,
    >)
        requires
            inv(init),
        ensures
            store.inv() == inv,
    {
        let snap = Snapshot::new(init);
        let ghost pred = |x: Snapshot<S>| inv(x@);
        let cell = RwLock::new(snap, Ghost(pred));
        CowStore { inv: Ghost(inv), cell }
    }

    /// A fresh store holding `init` as its first committed value, with no
    /// committed-value invariant: every value of `S` may be committed.
    pub fn new(init: S) -> (store: CowStore<S>)
        ensures
            forall|s: S| #[trigger] (store.inv())(s),
    {
        CowStore::new_with_invariant(init, Ghost(|s: S| true))
    }

    /// Obtain the current committed snapshot. The read lock is held just
    /// long enough to copy the snapshot reference out — though entering it
    /// waits for any writer's section that is open at that moment. The
    /// returned snapshot stays alive and unchanged however many writes
    /// follow, and its value was fully committed by some completed write:
    /// never a value from a write in progress.
    pub fn read(&self) -> (snap: Snapshot<S>)
        ensures
            (self.inv())(snap@),
    {
        proof {
            use_type_invariant(self);
        }
        let handle = self.cell.acquire_read();
        let snap = handle.borrow().share();
        handle.release_read();
        snap
    }

    /// Unconditionally replace the current state object with `new_value`,
    /// committed as a fresh snapshot. Holders of earlier snapshots keep
    /// observing the values they read.
    pub fn write(&self, new_value: S)
        requires
            (self.inv())(new_value),
    {
        proof {
            use_type_invariant(self);
        }
        let (_old_snap, handle) = self.cell.acquire_write();
        handle.release_write(Snapshot::new(new_value));
    }

    /// Acquire a read view, apply the caller-supplied pure `transform` to
    /// the field addressed by `field`, and return the transform's result.
    /// The read view is released before `get` returns; the result was
    /// computed from the field of some fully committed value.
    pub fn get<F: Field<S>, R, T: FnOnce(&F::FieldType) -> R>(
        &self,
        field: &F,
        transform: T,
    ) -> (r: R)
        requires
            forall|s: S|
                #[trigger] (self.inv())(s) ==> call_requires(transform, (&field.view_of(s),)),
        ensures
            exists|s: S| (self.inv())(s) && call_ensures(transform, (&field.view_of(s),), r),
    {
        let snap = self.read();
        let field_ref = field.select(snap.value());
        let r = transform(field_ref);
        proof {
            assert((self.inv())(snap@) && call_ensures(transform, (&field.view_of(snap@),), r));
        }
        r
    }

    /// Shorthand for a `get` whose transform duplicates the field: an owned
    /// copy of the addressed field of some fully committed value.
    pub fn select<F: Field<S>>(&self, field: &F) -> (r: F::FieldType) where
        F::FieldType: Duplicable,

        ensures
            exists|s: S| (self.inv())(s) && r == field.view_of(s),
    {
        let snap = self.read();
        let r = field.select(snap.value()).duplicate();
        proof {
            assert((self.inv())(snap@) && r == field.view_of(snap@));
        }
        r
    }

    /// Mutate exactly one field, atomically with respect to other writers.
    ///
    /// Requires of the caller (as a spec-level obligation) that the field
    /// assignment preserves the committed-value invariant. Succeeds exactly
    /// when no other holder retains the current snapshot; a lingering `read`
    /// result makes the mutation fail fast with [`StoreError::SnapshotShared`]
    /// rather than mutate shared state, and the store then still holds the
    /// old committed value.
    pub fn set<F: Field<S>>(&self, field: &F, value: F::FieldType) -> (r: Result<(), StoreError>)
        requires
            forall|s: S| #[trigger] (self.inv())(s) ==> (self.inv())(field.updated(s, value)),
        ensures
            r matches Err(e) ==> e == StoreError::SnapshotShared,
    {
        proof {
            use_type_invariant(self);
        }
        let (snap, handle) = self.cell.acquire_write();
        match snap.try_take() {
            Ok(mut current) => {
                proof {
                    assert((self.inv())(field.updated(current, value)));
                }
                field.set(&mut current, value);
                handle.release_write(Snapshot::new(current));
                Ok(())
            },
            Err(snap) => {
                handle.release_write(snap);
                Err(StoreError::SnapshotShared)
            },
        }
    }

    /// Apply an arbitrary whole-object mutation, atomically with respect to
    /// other writers: the one critical section makes multi-field,
    /// cross-field-consistent edits safe.
    ///
    /// The mutator must preserve the committed-value invariant, and the same
    /// exclusive-ownership precondition as for [`CowStore::set`] applies: the
    /// call fails fast when the current snapshot is still shared, leaving the
    /// old committed value in place. On success, the mutator ran on a fully
    /// committed value and its result became the new committed snapshot.
    pub fn update<F: FnOnce(S) -> S>(&self, mutator: F) -> (r: Result<(), StoreError>)
        requires
            forall|s: S| #[trigger] (self.inv())(s) ==> call_requires(mutator, (s,)),
            forall|s: S, t: S|
                (self.inv())(s) && #[trigger] call_ensures(mutator, (s,), t) ==> (self.inv())(t),
        ensures
            r matches Ok(u) ==> exists|s: S, t: S|
                (self.inv())(s) && #[trigger] call_ensures(mutator, (s,), t),
            r matches Err(e) ==> e == StoreError::SnapshotShared,
    {
        match self.begin_update() {
            Ok((current, guard)) => {
                let ghost taken: S = current;
                let next = mutator(current);
                proof {
                    assert((self.inv())(taken) && call_ensures(mutator, (taken,), next));
                }
                guard.commit(next);
                Ok(())
            },
            Err(e) => Err(e),
        }
    }

    /// Begin a whole-object update by hand: acquire the writer's critical
    /// section and take the current committed value out of it, failing fast
    /// when the current snapshot is still shared. The store stays locked for
    /// writers until the returned guard commits; this is the seam on which a
    /// mutator that must suspend mid-update (asynchronous work) is built
    /// outside the store.
    pub fn begin_update(&self) -> (r: Result<(S, CowUpdateGuard<'_, S>), StoreError>)
        ensures
            r matches Ok(p) ==> (self.inv())(p.0) && p.1.inv() == self.inv(),
            r matches Err(e) ==> e == StoreError::SnapshotShared,
    {
        proof {
            use_type_invariant(self);
        }
        let (snap, handle) = self.cell.acquire_write();
        match snap.try_take() {
            Ok(current) => Ok((current, CowUpdateGuard { inv: Ghost(self.inv@), handle })),
            Err(snap) => {
                handle.release_write(snap);
                Err(StoreError::SnapshotShared)
            },
        }
    }
}

impl<S: Duplicable> CowStore<S> {
    /// A fully independent owned copy of some fully committed value, safe
    /// to mutate without affecting the store.
    pub fn clone_state(&self) -> (r: S)
        ensures
            (self.inv())(r),
    {
        self.read().value().duplicate()
    }
}

/// The writer's critical section of a [`CowStore`], between
/// [`CowStore::begin_update`] and [`CowUpdateGuard::commit`]. While a guard
/// is alive, no other writer can commit.
#[verifier::reject_recursive_types(S)]
pub struct CowUpdateGuard<'a, S> {
    inv: Ghost<spec_fn(S) -> bool>,
    handle: WriteHandle<'a, Snapshot<S>, spec_fn(Snapshot<S>) -> bool>,
}

impl<'a, S> CowUpdateGuard<'a, S> {
    /// The committed-value invariant of the store this guard locks.
    pub closed spec fn inv(&self) -> spec_fn(S) -> bool {
        self.inv@
    }

    #[verifier::type_invariant]
    spec fn wf(self) -> bool {
        forall|x: Snapshot<S>| #[trigger] self.handle.rwlock().inv(x) <==> (self.inv@)(x@)
    }

    /// Commit `new_value` as the new authoritative snapshot and release the
    /// writer's critical section.
    pub fn commit(self, new_value: S)
        requires
            (self.inv())(new_value),
    {
        proof {
            use_type_invariant(&self);
        }
        let CowUpdateGuard { inv: _, handle } = self;
        handle.release_write(Snapshot::new(new_value));
    }
}

} // verus!
