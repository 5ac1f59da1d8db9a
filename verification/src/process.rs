//! The managed process: one slot for the child's handle and its lifecycle state.

use vstd::prelude::*;

verus! {

/// Where the supervised child stands in its life.
#[derive(Clone, Copy, Debug, PartialEq, Eq, Structural)]
pub enum ProcessState {
    /// No spawn has completed yet.
    Starting,
    /// The child was spawned and its handle is held.
    Running,
    /// The child answered the readiness probe and its handle is held.
    Ready,
    /// The handle was released for termination.
    Terminating,
    /// The termination request was issued.
    Terminated,
}

/// What a `ManagedProcess` is to its contracts: the slot and the state.
pub ghost struct ProcessModel<H> {
    pub handle: Option<H>,
    pub state: ProcessState,
}

/// The slot is occupied exactly while the child is `Running` or `Ready`.
pub open spec fn model_wf<H>(m: ProcessModel<H>) -> bool {
    m.handle is Some <==> (m.state == ProcessState::Running || m.state == ProcessState::Ready)
}

/// The model before any spawn: empty slot, `Starting`.
pub open spec fn fresh<H>() -> ProcessModel<H> {
    ProcessModel { handle: None, state: ProcessState::Starting }
}

/// The model after a spawn hands in `handle`: stored if none was stored
/// before, otherwise nothing changes.
pub open spec fn after_attach<H>(m: ProcessModel<H>, handle: H) -> ProcessModel<H> {
    if m.state == ProcessState::Starting {
        ProcessModel { handle: Some(handle), state: ProcessState::Running }
    } else {
        m
    }
}

/// The model after the readiness probe succeeded.
pub open spec fn after_ready<H>(m: ProcessModel<H>) -> ProcessModel<H> {
    if m.state == ProcessState::Running {
        ProcessModel { handle: m.handle, state: ProcessState::Ready }
    } else {
        m
    }
}

/// The model after the handle was taken out of the slot. An empty slot is
/// left as it is.
pub open spec fn after_take<H>(m: ProcessModel<H>) -> ProcessModel<H> {
    if m.handle is Some {
        ProcessModel { handle: None, state: ProcessState::Terminating }
    } else {
        m
    }
}

/// The model after the termination request was issued.
pub open spec fn after_terminated<H>(m: ProcessModel<H>) -> ProcessModel<H> {
    if m.state == ProcessState::Terminating {
        ProcessModel { handle: m.handle, state: ProcessState::Terminated }
    } else {
        m
    }
}

/// Owner of the child's handle. `H` is whatever the platform gives back from
/// a spawn; the slot never looks inside it.
pub struct ManagedProcess<H> {
    handle: Option<H>,
    state: ProcessState,
}

impl<H> View for ManagedProcess<H> {
    type V = ProcessModel<H>;

    closed spec fn view(&self) -> ProcessModel<H> {
        ProcessModel { handle: self.handle, state: self.state }
    }
}

impl<H> ManagedProcess<H> {
    /// The invariant every method keeps.
    pub open spec fn wf(&self) -> bool {
        model_wf(self@)
    }

    /// A process that has not been spawned yet.
    pub fn new() -> (p: Self)
        ensures
            p.wf(),
            p@ == fresh::<H>(),
    {
        ManagedProcess { handle: None, state: ProcessState::Starting }
    }

    /// Stores the handle of a successful spawn. The slot is set at most once:
    /// unless the process is still `Starting`, the handle is given back and
    /// nothing changes.
    pub fn attach(&mut self, handle: H) -> (rejected: Option<H>)
        requires
            old(self).wf(),
        ensures
            final(self).wf(),
            final(self)@ == after_attach(old(self)@, handle),
            rejected == if old(self)@.state == ProcessState::Starting {
                None
            } else {
                Some(handle)
            },
    {
        match self.state {
            ProcessState::Starting => {
                self.handle = Some(handle);
                self.state = ProcessState::Running;
                None
            },
            _ => Some(handle),
        }
    }

    /// Records that the backend answered the readiness probe. Returns whether
    /// the state moved from `Running` to `Ready`.
    pub fn mark_ready(&mut self) -> (moved: bool)
        requires
            old(self).wf(),
        ensures
            final(self).wf(),
            final(self)@ == after_ready(old(self)@),
            moved == (old(self)@.state == ProcessState::Running),
    {
        match self.state {
            ProcessState::Running => {
                self.state = ProcessState::Ready;
                true
            },
            _ => false,
        }
    }

    /// Takes the handle out of the slot and leaves the slot empty. With a
    /// handle in hand the process is `Terminating`; an empty slot gives `None`
    /// and nothing changes.
    pub fn take(&mut self) -> (handle: Option<H>)
        requires
            old(self).wf(),
        ensures
            final(self).wf(),
            handle == old(self)@.handle,
            final(self)@ == after_take(old(self)@),
    {
        let taken = self.handle.take();
        if taken.is_some() {
            self.state = ProcessState::Terminating;
        }
        taken
    }

    /// Records that the termination request was issued. Returns whether the
    /// state moved from `Terminating` to `Terminated`.
    pub fn mark_terminated(&mut self) -> (moved: bool)
        requires
            old(self).wf(),
        ensures
            final(self).wf(),
            final(self)@ == after_terminated(old(self)@),
            moved == (old(self)@.state == ProcessState::Terminating),
    {
        match self.state {
            ProcessState::Terminating => {
                self.state = ProcessState::Terminated;
                true
            },
            _ => false,
        }
    }

    /// The current lifecycle state.
    pub fn state(&self) -> (s: ProcessState)
        ensures
            s == self@.state,
    {
        self.state
    }

    /// Whether the slot holds a handle.
    pub fn has_handle(&self) -> (held: bool)
        ensures
            held == (self@.handle is Some),
    {
        self.handle.is_some()
    }
}

/// A spawn that completes while the process is `Starting` leaves exactly one
/// handle in the slot, the one it handed in, and the process `Running`.
pub proof fn lemma_spawn_holds_its_handle<H>(m: ProcessModel<H>, handle: H)
    requires
        model_wf(m),
        m.state == ProcessState::Starting,
    ensures
        m.handle is None,
        after_attach(m, handle).handle == Some(handle),
        after_attach(m, handle).state == ProcessState::Running,
        model_wf(after_attach(m, handle)),
{
}

/// A second spawn never replaces a handle that is held: once a handle was
/// stored, attaching another changes nothing.
pub proof fn lemma_slot_is_set_once<H>(m: ProcessModel<H>, first: H, second: H)
    requires
        model_wf(m),
    ensures
        after_attach(after_attach(m, first), second) == after_attach(m, first),
{
}

/// Every transition keeps the invariant.
pub proof fn lemma_transitions_keep_wf<H>(m: ProcessModel<H>, handle: H)
    requires
        model_wf(m),
    ensures
        model_wf(after_attach(m, handle)),
        model_wf(after_ready(m)),
        model_wf(after_take(m)),
        model_wf(after_terminated(m)),
{
}

} // verus!
