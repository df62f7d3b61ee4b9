//! Generational references: arena-backed slots whose handles carry a
//! generation tag, so that a handle used after its slot was cleared or reused
//! is detected instead of reading stale data.
//!
//! Each arena owns its generation counter and an index from generation to
//! slot; nothing is shared between arenas, and an arena has one owner at a
//! time (no internal locking). A handle carries no identity of its arena:
//! it must be checked against the arena it came from, since every arena's
//! counter starts from the same value. Field handles (`WideRef`) check liveness on the owning slot and
//! address a field inside its value, so projecting a field never creates a
//! lifetime of its own.

mod arena;
mod example;
mod field;
mod generation;
mod index;
mod laws;
mod list;
mod movable;
mod reference;
mod wrapper;

pub use arena::{Allocation, ArenaModel, Generational};
pub use example::{Example, ExampleField, ExampleRef};
pub use field::{FieldOf, Then, WideRef};
pub use generation::{GenAllocator, EMPTY_GEN, START_GEN};
pub use laws::{
    apply_step, issued_by, lemma_clear_kills, lemma_dead_stays_dead, lemma_field_write_returns_prior,
    lemma_gens_increase, lemma_live_gens_distinct, lemma_projection_shares_gate,
    lemma_put_gives_new_handle, lemma_put_keeps_others_alive, lemma_put_then_read, lemma_puts_increase,
    lemma_write_returns_prior, run, Step,
};
pub use list::{
    after_insert_after, after_insert_before, after_remove, link_alive, link_of, values_from,
    with_link, Node, NodeLink, NodeRef, NodeValue,
};
pub use movable::MovableRef;
pub use reference::Ref;
pub use wrapper::{RefWrapper, Struct};
