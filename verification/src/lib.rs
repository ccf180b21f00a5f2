//! A concurrent, field-addressable store for a shared, strongly typed state
//! object.
//!
//! One live state object is shared by many readers and writers. Callers
//! address either the whole object or a single named field through a typed
//! [`field::Field`] selector, and mutate it under one of two cell
//! strategies: a copy-on-write cell ([`cow::CowStore`]) that swaps immutable
//! snapshots, so a snapshot once taken is observed without any lock and a
//! reader is never excluded for longer than a writer's section stays open,
//! or an in-place cell
//! ([`inplace::InPlaceStore`]) that mutates the one live instance under a
//! lock. The copy-on-write strategy is chosen for state objects that
//! support independent duplication, the in-place strategy otherwise
//! ([`options::choose_variant`]).
//!
//! A store is an explicit object the application constructs once and
//! threads through its components, rather than an ambient process-wide
//! global: tests and callers can build independent stores at will. Each
//! cell carries a committed-value invariant fixed at construction; every
//! operation is proved to commit only values satisfying it and to hand
//! readers only such fully committed values, so no caller ever observes a
//! partially mutated state object.
//!
//! Two failure classes are designed out or surfaced explicitly. Lock
//! poisoning cannot arise: the cells are built on a verified lock, and the
//! verified code holding it is proved panic-free. A copy-on-write mutation
//! that finds its snapshot still shared — some holder of an earlier
//! [`cow::Snapshot`] keeps it alive — is refused fast with
//! [`cow::StoreError::SnapshotShared`] rather than allowed to duplicate or
//! corrupt state; the old committed value stays authoritative.

pub mod cow;
pub mod field;
pub mod inplace;
pub mod laws;
pub mod options;
pub mod state;
