//! The process registry: one slot for the handle of the running service.
//!
//! The registry owns the handle from the moment the launcher stores it until
//! the shutdown coordinator takes it. The handle type `H` is opaque here: the
//! registry only moves it. Exclusive access is the borrow `&mut self`; a host
//! that shares the registry between threads keeps it behind its own lock.

use vstd::prelude::*;
use crate::error::SupervisorError;

verus! {

/// A single optional slot for a process handle.
#[derive(Debug)]
pub struct ProcessRegistry<H> {
    slot: Option<H>,
}

/// One operation on the slot.
pub enum RegistryOp<H> {
    /// Store a handle.
    Put(H),
    /// Remove the handle, if there is one.
    Take,
}

/// The number of handles behind a slot value.
pub open spec fn held<H>(slot: Option<H>) -> nat {
    if slot is Some {
        1
    } else {
        0
    }
}

/// What `put` does to a slot: the new slot, and the handle it displaced.
pub open spec fn put_model<H>(slot: Option<H>, handle: H) -> (Option<H>, Option<H>) {
    (Some(handle), slot)
}

/// What `take` does to a slot: the new slot, and the handle it returns.
pub open spec fn take_model<H>(slot: Option<H>) -> (Option<H>, Option<H>) {
    (None, slot)
}

/// The slot after one operation, and what the operation handed back.
pub open spec fn apply_op<H>(slot: Option<H>, op: RegistryOp<H>) -> (Option<H>, Option<H>) {
    match op {
        RegistryOp::Put(handle) => put_model(slot, handle),
        RegistryOp::Take => take_model(slot),
    }
}

/// The slot after a sequence of operations, applied first to last.
pub open spec fn apply_ops<H>(slot: Option<H>, ops: Seq<RegistryOp<H>>) -> Option<H>
    decreases ops.len(),
{
    if ops.len() == 0 {
        slot
    } else {
        apply_op(apply_ops(slot, ops.drop_last()), ops.last()).0
    }
}

impl<H> View for ProcessRegistry<H> {
    type V = Option<H>;

    closed spec fn view(&self) -> Option<H> {
        self.slot
    }
}

impl<H> ProcessRegistry<H> {
    /// An empty registry.
    pub fn new() -> (registry: Self)
        ensures
            registry@ is None,
    {
        ProcessRegistry { slot: None }
    }

    /// Whether the slot holds a handle.
    pub fn is_occupied(&self) -> (occupied: bool)
        ensures
            occupied == (self@ is Some),
    {
        self.slot.is_some()
    }

    /// Stores `handle` in the slot and returns the handle that was there
    /// before. The slot is expected to be empty: a `Some` result means that a
    /// live handle was overwritten, which the caller reports as a logic error.
    pub fn put(&mut self, handle: H) -> (displaced: Option<H>)
        ensures
            (final(self)@, displaced) == put_model(old(self)@, handle),
    {
        let displaced = self.slot.take();
        self.slot = Some(handle);
        displaced
    }

    /// Removes the handle from the slot and returns it; on an empty slot the
    /// result is `None` and the slot stays empty.
    pub fn take(&mut self) -> (handle: Option<H>)
        ensures
            (final(self)@, handle) == take_model(old(self)@),
    {
        self.slot.take()
    }
}

/// The diagnostic for what a `put` displaced: an overwritten handle is a
/// logic error to report, an empty slot is as expected.
pub fn report_displaced<H>(displaced: &Option<H>) -> (report: Option<SupervisorError>)
    ensures
        displaced is Some ==> report == Some(SupervisorError::RegistryOverwritten),
        displaced is None ==> report is None,
        report matches Some(error) ==> !error.fatal(),
{
    match displaced {
        Some(_) => Some(SupervisorError::RegistryOverwritten),
        None => None,
    }
}

/// The registry never holds more than one handle, whatever operations ran.
pub proof fn lemma_at_most_one_handle<H>(slot: Option<H>, ops: Seq<RegistryOp<H>>)
    ensures
        held(apply_ops(slot, ops)) <= 1,
        ops.len() > 0 && ops.last() is Take ==> held(apply_ops(slot, ops)) == 0,
        ops.len() > 0 && ops.last() is Put ==> held(apply_ops(slot, ops)) == 1,
{
}

/// Taking from an empty slot returns nothing and leaves the slot empty, so a
/// second take right after a first one returns nothing whatever the first
/// one found.
pub proof fn lemma_take_is_idempotent<H>(slot: Option<H>)
    ensures
        take_model(None::<H>) == (None::<H>, None::<H>),
        take_model(take_model(slot).0) == (None::<H>, None::<H>),
        take_model(slot).1 == slot,
{
}

/// A handle that was put is the one the next take returns, and it is
/// returned once: the take after that finds the slot empty.
pub proof fn lemma_put_then_take<H>(slot: Option<H>, handle: H)
    ensures
        take_model(put_model(slot, handle).0).1 == Some(handle),
        take_model(take_model(put_model(slot, handle).0).0).1 is None,
{
}

} // verus!
