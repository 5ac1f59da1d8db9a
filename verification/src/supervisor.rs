//! The supervisor: what the startup sequence and the host's events do to the
//! managed process, and what the caller has to do in turn.

use vstd::prelude::*;
use crate::process::{
    after_attach,
    after_ready,
    after_take,
    after_terminated,
    model_wf,
    ManagedProcess,
    ProcessModel,
    ProcessState,
};
use crate::probe::{ProbePhase, ReadinessProbe};
use crate::shutdown::{on_close_requested, on_termination_issued, ShutdownAction};

verus! {

/// Something that happened outside and that the supervisor is told of.
#[derive(Debug, PartialEq, Eq)]
pub enum SupervisorEvent<H> {
    /// The backend executable was spawned; this is its handle.
    Spawned(H),
    /// The backend executable could not be located or spawned.
    SpawnFailed,
    /// The readiness probe ended with a success.
    ProbeSucceeded,
    /// The readiness probe ran out of attempts.
    ProbeExhausted,
    /// The host application asks to close.
    CloseRequested,
    /// The termination signal was sent to the child, successfully or not.
    TerminationIssued,
}

/// What the caller has to do after an event.
#[derive(Debug, PartialEq, Eq)]
pub enum SupervisorAction<H> {
    /// The handle is stored: start the output relay and the readiness probe,
    /// each as a task of its own.
    StartRelayAndProbe,
    /// Startup cannot go on: a configuration error that is not retried.
    AbortStartup,
    /// A handle was stored before; this one was not taken and comes back.
    Surplus(H),
    /// The backend is confirmed ready: say so.
    AnnounceReady,
    /// Go on without a confirmed-ready backend. This is no error.
    ContinueUnconfirmed,
    /// Send the termination signal through this handle and do not wait for
    /// the child to exit.
    Terminate(H),
    /// Nothing to do.
    Nothing,
}

/// The process after an event.
pub open spec fn process_after<H>(m: ProcessModel<H>, event: SupervisorEvent<H>) -> ProcessModel<
    H,
> {
    match event {
        SupervisorEvent::Spawned(handle) => after_attach(m, handle),
        SupervisorEvent::SpawnFailed => m,
        SupervisorEvent::ProbeSucceeded => after_ready(m),
        SupervisorEvent::ProbeExhausted => m,
        SupervisorEvent::CloseRequested => after_take(m),
        SupervisorEvent::TerminationIssued => after_terminated(m),
    }
}

/// The action an event asks for, given the process as it was.
pub open spec fn action_for<H>(m: ProcessModel<H>, event: SupervisorEvent<H>) -> SupervisorAction<
    H,
> {
    match event {
        SupervisorEvent::Spawned(handle) => if m.state == ProcessState::Starting {
            SupervisorAction::StartRelayAndProbe
        } else {
            SupervisorAction::Surplus(handle)
        },
        SupervisorEvent::SpawnFailed => SupervisorAction::AbortStartup,
        SupervisorEvent::ProbeSucceeded => if m.state == ProcessState::Running {
            SupervisorAction::AnnounceReady
        } else {
            SupervisorAction::Nothing
        },
        SupervisorEvent::ProbeExhausted => SupervisorAction::ContinueUnconfirmed,
        SupervisorEvent::CloseRequested => match m.handle {
            Some(handle) => SupervisorAction::Terminate(handle),
            None => SupervisorAction::Nothing,
        },
        SupervisorEvent::TerminationIssued => SupervisorAction::Nothing,
    }
}

/// What a probe in this phase has to tell the supervisor: nothing while it
/// is still polling, its verdict once it is over.
pub open spec fn probe_verdict<H>(phase: ProbePhase) -> Option<SupervisorEvent<H>> {
    match phase {
        ProbePhase::Polling => None,
        ProbePhase::Ready => Some(SupervisorEvent::ProbeSucceeded),
        ProbePhase::Exhausted => Some(SupervisorEvent::ProbeExhausted),
    }
}

/// Owner of the managed process for the application's lifetime.
pub struct ProcessSupervisor<H> {
    process: ManagedProcess<H>,
}

impl<H> View for ProcessSupervisor<H> {
    type V = ProcessModel<H>;

    closed spec fn view(&self) -> ProcessModel<H> {
        self.process@
    }
}

impl<H> ProcessSupervisor<H> {
    /// The invariant every method keeps.
    pub closed spec fn wf(&self) -> bool {
        self.process.wf()
    }

    /// A well-formed supervisor has a well-formed process.
    pub proof fn lemma_wf_model(&self)
        requires
            self.wf(),
        ensures
            model_wf(self@),
    {
    }

    /// A supervisor whose process has not been spawned yet.
    pub fn new() -> (s: Self)
        ensures
            s.wf(),
            s@ == crate::process::fresh::<H>(),
    {
        ProcessSupervisor { process: ManagedProcess::new() }
    }

    /// Takes one event, updates the process and says what to do.
    pub fn handle(&mut self, event: SupervisorEvent<H>) -> (action: SupervisorAction<H>)
        requires
            old(self).wf(),
        ensures
            final(self).wf(),
            final(self)@ == process_after(old(self)@, event),
            action == action_for(old(self)@, event),
    {
        match event {
            SupervisorEvent::Spawned(handle) => match self.process.attach(handle) {
                None => SupervisorAction::StartRelayAndProbe,
                Some(back) => SupervisorAction::Surplus(back),
            },
            SupervisorEvent::SpawnFailed => SupervisorAction::AbortStartup,
            SupervisorEvent::ProbeSucceeded => {
                if self.process.mark_ready() {
                    SupervisorAction::AnnounceReady
                } else {
                    SupervisorAction::Nothing
                }
            },
            SupervisorEvent::ProbeExhausted => SupervisorAction::ContinueUnconfirmed,
            SupervisorEvent::CloseRequested => match on_close_requested(&mut self.process) {
                ShutdownAction::Terminate(handle) => SupervisorAction::Terminate(handle),
                ShutdownAction::Nothing => SupervisorAction::Nothing,
            },
            SupervisorEvent::TerminationIssued => {
                let _ = on_termination_issued(&mut self.process);
                SupervisorAction::Nothing
            },
        }
    }

    /// Takes the verdict of a readiness probe. A probe that ended ready moves
    /// a `Running` process to `Ready`; one that ran out of attempts changes
    /// nothing and startup goes on; one that is still polling has no verdict
    /// yet and is ignored.
    pub fn probe_finished(&mut self, probe: &ReadinessProbe) -> (action: SupervisorAction<H>)
        requires
            old(self).wf(),
        ensures
            final(self).wf(),
            match probe_verdict::<H>(probe@.phase) {
                Some(event) => final(self)@ == process_after(old(self)@, event) && action
                    == action_for(old(self)@, event),
                None => final(self)@ == old(self)@ && action == SupervisorAction::<H>::Nothing,
            },
    {
        match probe.phase() {
            ProbePhase::Polling => SupervisorAction::Nothing,
            ProbePhase::Ready => self.handle(SupervisorEvent::ProbeSucceeded),
            ProbePhase::Exhausted => self.handle(SupervisorEvent::ProbeExhausted),
        }
    }

    /// The current lifecycle state.
    pub fn state(&self) -> (s: ProcessState)
        ensures
            s == self@.state,
    {
        self.process.state()
    }

    /// Whether the slot holds a handle.
    pub fn has_handle(&self) -> (held: bool)
        ensures
            held == (self@.handle is Some),
    {
        self.process.has_handle()
    }
}

/// The process after a sequence of events, taken in order.
pub open spec fn process_after_all<H>(m: ProcessModel<H>, events: Seq<SupervisorEvent<H>>)
    -> ProcessModel<H>
    decreases events.len(),
{
    if events.len() == 0 {
        m
    } else {
        process_after(process_after_all(m, events.drop_last()), events.last())
    }
}

/// Whatever happens, the slot is occupied exactly while the child is
/// `Running` or `Ready`: no event breaks the invariant.
pub proof fn lemma_events_keep_wf<H>(m: ProcessModel<H>, events: Seq<SupervisorEvent<H>>)
    requires
        model_wf(m),
    ensures
        model_wf(process_after_all(m, events)),
    decreases events.len(),
{
    if events.len() > 0 {
        lemma_events_keep_wf(m, events.drop_last());
    }
}

/// A handle that was released is never released again: once the process is
/// `Terminating` or `Terminated`, no sequence of events fills the slot, so
/// every later close request asks for nothing.
pub proof fn lemma_released_stays_released<H>(
    m: ProcessModel<H>,
    events: Seq<SupervisorEvent<H>>,
)
    requires
        model_wf(m),
        m.state == ProcessState::Terminating || m.state == ProcessState::Terminated,
    ensures
        process_after_all(m, events).handle is None,
        process_after_all(m, events).state == ProcessState::Terminating || process_after_all(
            m,
            events,
        ).state == ProcessState::Terminated,
        action_for(process_after_all(m, events), SupervisorEvent::<H>::CloseRequested)
            == SupervisorAction::<H>::Nothing,
    decreases events.len(),
{
    if events.len() > 0 {
        lemma_released_stays_released(m, events.drop_last());
    }
}

/// The process is `Ready` only on the word of a probe: an event makes it
/// `Ready` only if it is a probe's success, and only from `Running`.
pub proof fn lemma_ready_needs_probe_success<H>(m: ProcessModel<H>, event: SupervisorEvent<H>)
    requires
        m.state != ProcessState::Ready,
        process_after(m, event).state == ProcessState::Ready,
    ensures
        event == SupervisorEvent::<H>::ProbeSucceeded,
        m.state == ProcessState::Running,
        process_after(m, event).handle == m.handle,
{
}

/// Two close requests in a row: the second asks for nothing and changes
/// nothing.
pub proof fn lemma_double_close<H>(m: ProcessModel<H>)
    requires
        model_wf(m),
    ensures
        action_for(
            process_after(m, SupervisorEvent::CloseRequested),
            SupervisorEvent::<H>::CloseRequested,
        ) == SupervisorAction::<H>::Nothing,
        process_after(
            process_after(m, SupervisorEvent::CloseRequested),
            SupervisorEvent::CloseRequested,
        ) == process_after(m, SupervisorEvent::CloseRequested),
{
}

/// A close request before any spawn has completed asks for nothing and
/// leaves the process `Starting`, so that a spawn that completes later is
/// still stored.
pub proof fn lemma_close_before_spawn<H>()
    ensures
        action_for(crate::process::fresh::<H>(), SupervisorEvent::<H>::CloseRequested)
            == SupervisorAction::<H>::Nothing,
        process_after(crate::process::fresh::<H>(), SupervisorEvent::<H>::CloseRequested)
            == crate::process::fresh::<H>(),
{
}

} // verus!
