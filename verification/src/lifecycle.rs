//! The lifecycle of the backend as a transition system.
//!
//! A [`State`] says how far the startup has come and whether a process is
//! held. An [`Event`] is something the caller has seen happen; [`next`] gives
//! the state that follows and the [`Action`] the caller is to perform. An
//! event that the current phase does not wait for changes nothing and asks
//! for nothing.

use vstd::prelude::*;
use crate::config::{spec_backend_name, BACKEND_URL, MAX_RETRIES, RETRY_DELAY_MS};
use crate::error::StartupError;

verus! {

/// How far the startup has come.
#[derive(Debug, Clone, Copy, PartialEq, Eq, Structural)]
pub enum Phase {
    /// Nothing has been asked for yet.
    Idle,
    /// Waiting to learn where the executable is and whether it is there.
    Locating,
    /// Waiting for the outcome of spawning the executable.
    Spawning,
    /// Waiting for the outcome of probe number `attempt`, counted from 1.
    Probing { attempt: u32 },
    /// Probe number `attempt` has failed; waiting for the pause to pass.
    Sleeping { attempt: u32 },
    /// The backend has answered: startup is complete.
    Ready,
    /// Startup has been given up.
    Failed,
}

/// What the caller is asked to do.
#[derive(Debug, PartialEq, Eq)]
pub enum Action<H> {
    /// Resolve the resource directory, append `name` to it, and report
    /// whether a file stands there.
    Locate { name: &'static str },
    /// Spawn the executable at `path`.
    Spawn { path: String },
    /// Send one request to `url`.
    Probe { url: &'static str },
    /// Let `millis` milliseconds pass.
    Sleep { millis: u64 },
    /// Go on: the backend is ready.
    Ready,
    /// Give up the startup and report `error`.
    Abort { error: StartupError },
    /// Kill the process behind `child`.
    Kill { child: H },
    /// Nothing is to be done.
    Nothing,
}

/// What the caller reports while the backend is being started.
#[derive(Debug, PartialEq, Eq)]
pub enum LaunchEvent<H> {
    /// Setup begins, on a Windows target (`windows`) or another.
    Setup { windows: bool },
    /// The resource directory could not be resolved.
    ResourceDirFailed { reason: String },
    /// The executable is expected at `path`; `exists` says whether it is there.
    Located { path: String, exists: bool },
    /// The process was spawned and is reached by `child`.
    Spawned { child: H },
    /// The process could not be spawned.
    SpawnFailed { reason: String },
}

/// What the caller reports while the backend is waited for.
#[derive(Debug, PartialEq, Eq)]
pub enum ProbeEvent {
    /// The backend answered the probe.
    Succeeded,
    /// The probe failed.
    Failed { reason: String },
    /// The pause after a failed probe has passed.
    DelayElapsed,
}

/// Anything the caller reports.
#[derive(Debug, PartialEq, Eq)]
pub enum Event<H> {
    Launch(LaunchEvent<H>),
    Probe(ProbeEvent),
    /// The application window was destroyed.
    WindowDestroyed,
}

/// The state of the supervision: the phase, and the process held, if any.
pub struct State<H> {
    pub phase: Phase,
    pub child: Option<H>,
}

impl<H> State<H> {
    /// The state before anything has happened.
    pub open spec fn initial() -> Self {
        State { phase: Phase::Idle, child: None }
    }

    /// What holds of every state that is reached from the initial one: probes
    /// are counted from 1 up to the limit, a pause only follows a probe that
    /// was not the last, and no process is held before one was spawned.
    pub open spec fn wf(self) -> bool {
        &&& self.phase matches Phase::Probing { attempt } ==> 1 <= attempt <= MAX_RETRIES
        &&& self.phase matches Phase::Sleeping { attempt } ==> 1 <= attempt < MAX_RETRIES
        &&& self.before_spawn() ==> self.child is None
    }

    /// Whether no spawn has succeeded or failed yet.
    pub open spec fn before_spawn(self) -> bool {
        self.phase is Idle || self.phase is Locating || self.phase is Spawning
    }

    /// The same state in another phase.
    pub open spec fn at(self, phase: Phase) -> Self {
        State { phase, child: self.child }
    }
}

/// The step taken on a report about starting the backend.
///
/// Setup asks for the executable to be located. A resource directory that
/// cannot be resolved, a missing executable and a failed spawn each give up
/// the startup, without a process being held. An executable that is there is
/// spawned; once it runs, its handle is held and the first probe is sent.
pub open spec fn launch_next<H>(s: State<H>, e: LaunchEvent<H>) -> (State<H>, Action<H>) {
    match (s.phase, e) {
        (Phase::Idle, LaunchEvent::Setup { windows }) => (
            s.at(Phase::Locating),
            Action::Locate { name: spec_backend_name(windows) },
        ),
        (Phase::Locating, LaunchEvent::ResourceDirFailed { reason }) => (
            s.at(Phase::Failed),
            Action::Abort { error: StartupError::ResourceDir { reason } },
        ),
        (Phase::Locating, LaunchEvent::Located { path, exists }) => if exists {
            (s.at(Phase::Spawning), Action::Spawn { path })
        } else {
            (s.at(Phase::Failed), Action::Abort { error: StartupError::NotFound { path } })
        },
        (Phase::Spawning, LaunchEvent::Spawned { child }) => (
            State { phase: Phase::Probing { attempt: 1 }, child: Some(child) },
            Action::Probe { url: BACKEND_URL },
        ),
        (Phase::Spawning, LaunchEvent::SpawnFailed { reason }) => (
            s.at(Phase::Failed),
            Action::Abort { error: StartupError::Spawn { reason } },
        ),
        _ => (s, Action::Nothing),
    }
}

/// The step taken on a report about waiting for the backend.
///
/// An answer completes the startup. A failed probe is followed by a pause
/// and another probe, unless it was the last one allowed: then the startup is
/// given up with the reason of that last failure.
pub open spec fn probe_next<H>(s: State<H>, e: ProbeEvent) -> (State<H>, Action<H>) {
    match (s.phase, e) {
        (Phase::Probing { attempt }, ProbeEvent::Succeeded) => (s.at(Phase::Ready), Action::Ready),
        (Phase::Probing { attempt }, ProbeEvent::Failed { reason }) => if attempt < MAX_RETRIES {
            (s.at(Phase::Sleeping { attempt }), Action::Sleep { millis: RETRY_DELAY_MS })
        } else {
            (
                s.at(Phase::Failed),
                Action::Abort { error: StartupError::Timeout { attempts: MAX_RETRIES, reason } },
            )
        },
        (Phase::Sleeping { attempt }, ProbeEvent::DelayElapsed) => (
            s.at(Phase::Probing { attempt: (attempt + 1) as u32 }),
            Action::Probe { url: BACKEND_URL },
        ),
        _ => (s, Action::Nothing),
    }
}

/// The step taken when the window is destroyed: a held process is given up
/// to be killed; the phase stays as it is.
pub open spec fn destroy_next<H>(s: State<H>) -> (State<H>, Action<H>) {
    match s.child {
        Some(child) => (State { phase: s.phase, child: None }, Action::Kill { child }),
        None => (s, Action::Nothing),
    }
}

/// The state that follows `s` on event `e`, and the action to perform.
pub open spec fn next<H>(s: State<H>, e: Event<H>) -> (State<H>, Action<H>) {
    match e {
        Event::Launch(e) => launch_next(s, e),
        Event::Probe(e) => probe_next(s, e),
        Event::WindowDestroyed => destroy_next(s),
    }
}

} // verus!
