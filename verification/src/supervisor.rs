//! The supervisor: the lifecycle's state, advanced one report at a time.

use vstd::prelude::*;
use crate::config::{backend_name, BACKEND_URL, MAX_RETRIES, RETRY_DELAY_MS};
use crate::error::StartupError;
use crate::lifecycle::{
    destroy_next, launch_next, next, probe_next, Action, Event, LaunchEvent, Phase, ProbeEvent,
    State,
};
use crate::process::{cleanup_backend, BackendProcess};

verus! {

/// Supervises one backend process from setup to the destruction of the
/// window.
///
/// The caller performs each [`Action`] it is handed and reports the outcome
/// as the next event. `H` is the caller's handle of the spawned process.
pub struct Supervisor<H> {
    phase: Phase,
    process: BackendProcess<H>,
}

impl<H> View for Supervisor<H> {
    type V = State<H>;

    closed spec fn view(&self) -> State<H> {
        State { phase: self.phase, child: self.process@ }
    }
}

impl<H> Supervisor<H> {
    #[verifier::type_invariant]
    spec fn well_formed(self) -> bool {
        self@.wf()
    }

    /// A supervisor that has not begun: idle, holding no process.
    pub fn new() -> (supervisor: Self)
        ensures
            supervisor@ == State::<H>::initial(),
    {
        Supervisor { phase: Phase::Idle, process: BackendProcess::empty() }
    }

    /// How far the startup has come.
    pub fn phase(&self) -> (phase: Phase)
        ensures
            phase == self@.phase,
            self@.wf(),
    {
        proof {
            use_type_invariant(self);
        }
        self.phase
    }

    /// Whether a process is held.
    pub fn holds_child(&self) -> (held: bool)
        ensures
            held == self@.child.is_some(),
    {
        self.process.holds_child()
    }

    /// Takes in any report and answers with what to do next.
    pub fn step(&mut self, event: Event<H>) -> (action: Action<H>)
        ensures
            (final(self)@, action) == next(old(self)@, event),
    {
        match event {
            Event::Launch(event) => start_backend(self, event),
            Event::Probe(event) => wait_for_backend(self, event),
            Event::WindowDestroyed => window_destroyed(self),
        }
    }
}

/// Takes in a report about starting the backend and answers with what to do
/// next.
pub fn start_backend<H>(supervisor: &mut Supervisor<H>, event: LaunchEvent<H>) -> (action: Action<
    H,
>)
    ensures
        (final(supervisor)@, action) == launch_next(old(supervisor)@, event),
{
    proof {
        use_type_invariant(&*supervisor);
    }
    match (supervisor.phase, event) {
        (Phase::Idle, LaunchEvent::Setup { windows }) => {
            supervisor.phase = Phase::Locating;
            Action::Locate { name: backend_name(windows) }
        },
        (Phase::Locating, LaunchEvent::ResourceDirFailed { reason }) => {
            supervisor.phase = Phase::Failed;
            Action::Abort { error: StartupError::ResourceDir { reason } }
        },
        (Phase::Locating, LaunchEvent::Located { path, exists }) => {
            if exists {
                supervisor.phase = Phase::Spawning;
                Action::Spawn { path }
            } else {
                supervisor.phase = Phase::Failed;
                Action::Abort { error: StartupError::NotFound { path } }
            }
        },
        (Phase::Spawning, LaunchEvent::Spawned { child }) => {
            supervisor.phase = Phase::Probing { attempt: 1 };
            supervisor.process = BackendProcess::new(child);
            Action::Probe { url: BACKEND_URL }
        },
        (Phase::Spawning, LaunchEvent::SpawnFailed { reason }) => {
            supervisor.phase = Phase::Failed;
            Action::Abort { error: StartupError::Spawn { reason } }
        },
        _ => Action::Nothing,
    }
}

/// Takes in a report about waiting for the backend and answers with what to
/// do next.
pub fn wait_for_backend<H>(supervisor: &mut Supervisor<H>, event: ProbeEvent) -> (action: Action<H>)
    ensures
        (final(supervisor)@, action) == probe_next(old(supervisor)@, event),
{
    proof {
        use_type_invariant(&*supervisor);
    }
    match (supervisor.phase, event) {
        (Phase::Probing { attempt }, ProbeEvent::Succeeded) => {
            supervisor.phase = Phase::Ready;
            Action::Ready
        },
        (Phase::Probing { attempt }, ProbeEvent::Failed { reason }) => {
            if attempt < MAX_RETRIES {
                supervisor.phase = Phase::Sleeping { attempt };
                Action::Sleep { millis: RETRY_DELAY_MS }
            } else {
                supervisor.phase = Phase::Failed;
                Action::Abort { error: StartupError::Timeout { attempts: MAX_RETRIES, reason } }
            }
        },
        (Phase::Sleeping { attempt }, ProbeEvent::DelayElapsed) => {
            supervisor.phase = Phase::Probing { attempt: attempt + 1 };
            Action::Probe { url: BACKEND_URL }
        },
        _ => Action::Nothing,
    }
}

/// Takes in the destruction of the window: a held process is handed out to
/// be killed, and nothing is held afterwards.
pub fn window_destroyed<H>(supervisor: &mut Supervisor<H>) -> (action: Action<H>)
    ensures
        (final(supervisor)@, action) == destroy_next(old(supervisor)@),
{
    proof {
        use_type_invariant(&*supervisor);
    }
    match cleanup_backend(&mut supervisor.process) {
        Some(child) => Action::Kill { child },
        None => Action::Nothing,
    }
}

} // verus!
