//! The shutdown coordinator: what the window-close event does.
//!
//! Closing the window takes the handle out of the registry and asks the host
//! to terminate the process behind it. The request is best effort: the host
//! does not wait for the process to exit, and a failed request is reported
//! and otherwise ignored. Closing never fails.

use vstd::prelude::*;
use crate::error::SupervisorError;
use crate::registry::{take_model, ProcessRegistry};

verus! {

/// What the host is to do when the window closes.
#[derive(Debug, PartialEq, Eq)]
pub enum ShutdownAction<H> {
    /// Ask the system to terminate the process behind this handle.
    Terminate(H),
    /// There is no process to terminate.
    Nothing,
}

/// What the window-close event does to a slot: the slot is empty afterwards,
/// and the handle that was in it, if any, is to be terminated.
pub open spec fn shutdown_model<H>(slot: Option<H>) -> (Option<H>, ShutdownAction<H>) {
    match take_model(slot).1 {
        Some(handle) => (take_model(slot).0, ShutdownAction::Terminate(handle)),
        None => (take_model(slot).0, ShutdownAction::Nothing),
    }
}

/// The number of termination requests that `closings` window-close events in
/// a row bring about, from a given slot.
pub open spec fn terminations_requested<H>(slot: Option<H>, closings: nat) -> nat
    decreases closings,
{
    if closings == 0 {
        0
    } else {
        let (next, action) = shutdown_model(slot);
        let here: nat = if action is Terminate {
            1
        } else {
            0
        };
        here + terminations_requested(next, (closings - 1) as nat)
    }
}

/// Handles the window-close event: empties the registry and says whether a
/// process is to be terminated.
pub fn on_window_closing<H>(registry: &mut ProcessRegistry<H>) -> (action: ShutdownAction<H>)
    ensures
        (final(registry)@, action) == shutdown_model(old(registry)@),
{
    match registry.take() {
        Some(handle) => ShutdownAction::Terminate(handle),
        None => ShutdownAction::Nothing,
    }
}

/// Takes the result of the termination request. A failure is handed back to
/// be logged; it is never fatal, so closing goes on either way.
pub fn after_termination(succeeded: bool) -> (report: Option<SupervisorError>)
    ensures
        succeeded ==> report is None,
        !succeeded ==> report == Some(SupervisorError::TerminationError),
        report matches Some(error) ==> !error.fatal(),
{
    if succeeded {
        None
    } else {
        Some(SupervisorError::TerminationError)
    }
}

/// Closing with an empty registry asks for no termination and changes
/// nothing.
pub proof fn lemma_shutdown_of_empty_registry<H>()
    ensures
        shutdown_model::<H>(None) == (None::<H>, ShutdownAction::<H>::Nothing),
{
}

/// Closing with a live handle asks for the termination of exactly that
/// handle and leaves the registry empty.
pub proof fn lemma_shutdown_of_live_handle<H>(handle: H)
    ensures
        shutdown_model(Some(handle)) == (None::<H>, ShutdownAction::Terminate(handle)),
{
}

/// However often the window-close event arrives, a live handle is terminated
/// exactly once and an empty registry never.
pub proof fn lemma_exactly_one_termination<H>(slot: Option<H>, closings: nat)
    ensures
        terminations_requested(slot, closings) == if closings > 0 && slot is Some {
            1nat
        } else {
            0nat
        },
    decreases closings,
{
    if closings > 0 {
        lemma_exactly_one_termination(shutdown_model(slot).0, (closings - 1) as nat);
    }
}

} // verus!
