//! Shutdown on the host's close request: the handle leaves the slot once.

use vstd::prelude::*;
use crate::process::{after_take, model_wf, ManagedProcess, ProcessModel};

verus! {

/// What the caller has to do after a close request.
#[derive(Debug, PartialEq, Eq)]
pub enum ShutdownAction<H> {
    /// Send the termination signal through this handle, without waiting for
    /// the child to exit.
    Terminate(H),
    /// The slot was empty: there is nothing to signal.
    Nothing,
}

/// The action a close request asks for, given the slot as it was.
pub open spec fn close_action<H>(m: ProcessModel<H>) -> ShutdownAction<H> {
    match m.handle {
        Some(handle) => ShutdownAction::Terminate(handle),
        None => ShutdownAction::Nothing,
    }
}

/// Reacts to "close requested": takes the handle out of the slot. A handle
/// that was held comes back as `Terminate`; an empty slot (no spawn yet, or a
/// shutdown that already ran) gives `Nothing` and leaves the process as it is.
pub fn on_close_requested<H>(process: &mut ManagedProcess<H>) -> (action: ShutdownAction<H>)
    requires
        old(process).wf(),
    ensures
        final(process).wf(),
        final(process)@ == after_take(old(process)@),
        action == close_action(old(process)@),
{
    match process.take() {
        Some(handle) => ShutdownAction::Terminate(handle),
        None => ShutdownAction::Nothing,
    }
}

/// Records that the termination signal was sent, whether or not the send
/// succeeded: a failure is logged by the caller and not retried. Returns
/// whether the process moved from `Terminating` to `Terminated`.
pub fn on_termination_issued<H>(process: &mut ManagedProcess<H>) -> (moved: bool)
    requires
        old(process).wf(),
    ensures
        final(process).wf(),
        final(process)@ == crate::process::after_terminated(old(process)@),
        moved == (old(process)@.state == crate::process::ProcessState::Terminating),
{
    process.mark_terminated()
}

/// Shutdown is idempotent: after one close request a second one finds the
/// slot empty, asks for nothing and changes nothing.
pub proof fn lemma_second_close_is_noop<H>(m: ProcessModel<H>)
    requires
        model_wf(m),
    ensures
        close_action(after_take(m)) == ShutdownAction::<H>::Nothing,
        after_take(after_take(m)) == after_take(m),
{
}

/// The second close stays a no-op when the termination was recorded in
/// between.
pub proof fn lemma_close_after_termination_is_noop<H>(m: ProcessModel<H>)
    requires
        model_wf(m),
    ensures
        close_action(crate::process::after_terminated(after_take(m)))
            == ShutdownAction::<H>::Nothing,
        after_take(crate::process::after_terminated(after_take(m)))
            == crate::process::after_terminated(after_take(m)),
{
}

/// A close request that finds the slot empty, as before any spawn has
/// completed, asks for nothing and leaves the process unchanged.
pub proof fn lemma_close_on_empty_slot_is_noop<H>(m: ProcessModel<H>)
    requires
        m.handle is None,
    ensures
        close_action(m) == ShutdownAction::<H>::Nothing,
        after_take(m) == m,
{
}

/// A handle is handed out for termination exactly when one was held.
pub proof fn lemma_close_terminates_held_handle<H>(m: ProcessModel<H>, handle: H)
    requires
        m.handle == Some(handle),
    ensures
        close_action(m) == ShutdownAction::Terminate(handle),
        after_take(m).handle is None,
{
}

} // verus!
