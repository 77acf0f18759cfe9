//! What holds of every run of the lifecycle.
//!
//! A run is a state together with the events reported from it, in order.
//! The laws below speak of the state a run ends in ([`run`]) and of the action
//! asked for on each of its events ([`action_at`]).

use vstd::prelude::*;
use crate::config::{spec_backend_name, BACKEND_URL, MAX_RETRIES, RETRY_DELAY_MS};
use crate::error::StartupError;
use crate::lifecycle::{next, Action, Event, LaunchEvent, Phase, ProbeEvent, State};

verus! {

/// The state reached from `s` once all of `events` have been reported.
pub open spec fn run<H>(s: State<H>, events: Seq<Event<H>>) -> State<H>
    decreases events.len(),
{
    if events.len() == 0 {
        s
    } else {
        next(run(s, events.drop_last()), events.last()).0
    }
}

/// The action asked for on the event at position `i` of a run from `s`.
pub open spec fn action_at<H>(s: State<H>, events: Seq<Event<H>>, i: int) -> Action<H>
    recommends
        0 <= i < events.len(),
{
    next(run(s, events.take(i)), events[i]).1
}

/// The report that the executable stands, or does not stand, at `path`.
pub open spec fn located<H>(path: String, exists: bool) -> Event<H> {
    Event::Launch(LaunchEvent::Located { path, exists })
}

/// The report that spawning failed for `reason`.
pub open spec fn spawn_failed<H>(reason: String) -> Event<H> {
    Event::Launch(LaunchEvent::SpawnFailed { reason })
}

/// The report that a probe failed for `reason`.
pub open spec fn probe_failed<H>(reason: String) -> Event<H> {
    Event::Probe(ProbeEvent::Failed { reason })
}

/// The report that the backend answered a probe.
pub open spec fn probe_succeeded<H>() -> Event<H> {
    Event::Probe(ProbeEvent::Succeeded)
}

/// The report that the pause after a failed probe has passed.
pub open spec fn delay_elapsed<H>() -> Event<H> {
    Event::Probe(ProbeEvent::DelayElapsed)
}

/// One failed probe for each of `reasons`, each followed by its pause.
pub open spec fn failed_rounds<H>(reasons: Seq<String>) -> Seq<Event<H>>
    decreases reasons.len(),
{
    if reasons.len() == 0 {
        Seq::empty()
    } else {
        failed_rounds::<H>(reasons.drop_last()).push(probe_failed(reasons.last())).push(
            delay_elapsed(),
        )
    }
}

/// The action asked for at position `i` of a series of failed rounds: the
/// fixed pause on each failure, the next probe on each pause.
pub open spec fn retry_action<H>(i: int) -> Action<H> {
    if i % 2 == 0 {
        Action::Sleep { millis: RETRY_DELAY_MS }
    } else {
        Action::Probe { url: BACKEND_URL }
    }
}

/// Every step keeps a well-formed state well-formed.
pub proof fn lemma_next_wf<H>(s: State<H>, e: Event<H>)
    requires
        s.wf(),
    ensures
        next(s, e).0.wf(),
{
}

/// Every run from a well-formed state ends in a well-formed state; so does
/// every run from the initial state.
pub proof fn lemma_run_wf<H>(s: State<H>, events: Seq<Event<H>>)
    requires
        s.wf(),
    ensures
        run(s, events).wf(),
        State::<H>::initial().wf(),
    decreases events.len(),
{
    if events.len() > 0 {
        lemma_run_wf(s, events.drop_last());
        lemma_next_wf(run(s, events.drop_last()), events.last());
    }
}

/// A launch in which nothing fails: setup asks for the executable to be
/// located, the executable that is found is spawned from the path that was
/// reported, and the process that runs is held while the first probe goes to
/// the backend's address.
pub proof fn lemma_launch_begins_probing<H>(windows: bool, path: String, child: H)
    ensures
        next(State::<H>::initial(), Event::Launch(LaunchEvent::Setup { windows })) == (
            State::<H> { phase: Phase::Locating, child: None },
            Action::<H>::Locate { name: spec_backend_name(windows) },
        ),
        next(State::<H> { phase: Phase::Locating, child: None }, located(path, true)) == (
            State::<H> { phase: Phase::Spawning, child: None },
            Action::<H>::Spawn { path },
        ),
        next(
            State::<H> { phase: Phase::Spawning, child: None },
            Event::Launch(LaunchEvent::Spawned { child }),
        ) == (
            State::<H> { phase: Phase::Probing { attempt: 1 }, child: Some(child) },
            Action::<H>::Probe { url: BACKEND_URL },
        ),
{
}

/// Once the startup is given up with no process held, nothing happens any
/// more: every later event leaves the state as it is and asks for nothing.
pub proof fn lemma_given_up_is_final<H>(s: State<H>, later: Seq<Event<H>>)
    requires
        s.phase is Failed,
        s.child is None,
    ensures
        run(s, later) == s,
        forall|i: int| 0 <= i < later.len() ==> #[trigger] action_at(s, later, i) is Nothing,
    decreases later.len(),
{
    if later.len() > 0 {
        lemma_given_up_is_final(s, later.drop_last());
    }
    assert forall|i: int| 0 <= i < later.len() implies #[trigger] action_at(s, later, i)
        is Nothing by {
        lemma_given_up_is_final(s, later.take(i));
    }
}

/// A missing executable gives up the startup with the error that names the
/// path where it was expected; no process is held, and whatever is reported
/// later, nothing is asked for any more: in particular, nothing is spawned.
pub proof fn lemma_missing_executable_spawns_nothing<H>(
    s: State<H>,
    path: String,
    later: Seq<Event<H>>,
)
    requires
        s.wf(),
        s.phase is Locating,
    ensures
        next(s, located(path, false)) == (
            State::<H> { phase: Phase::Failed, child: None },
            Action::<H>::Abort { error: StartupError::NotFound { path } },
        ),
        run(next(s, located(path, false)).0, later).phase is Failed,
        run(next(s, located(path, false)).0, later).child is None,
        forall|i: int|
            0 <= i < later.len() ==> #[trigger] action_at(
                next(s, located(path, false)).0,
                later,
                i,
            ) is Nothing,
{
    lemma_given_up_is_final(next(s, located(path, false)).0, later);
}

/// A failed spawn gives up the startup with the error that carries the
/// reason; no process is held then or at any later time, and nothing is asked
/// for any more.
pub proof fn lemma_spawn_failure_stores_nothing<H>(
    s: State<H>,
    reason: String,
    later: Seq<Event<H>>,
)
    requires
        s.wf(),
        s.phase is Spawning,
    ensures
        next(s, spawn_failed(reason)) == (
            State::<H> { phase: Phase::Failed, child: None },
            Action::<H>::Abort { error: StartupError::Spawn { reason } },
        ),
        run(next(s, spawn_failed(reason)).0, later).phase is Failed,
        run(next(s, spawn_failed(reason)).0, later).child is None,
        forall|i: int|
            0 <= i < later.len() ==> #[trigger] action_at(
                next(s, spawn_failed(reason)).0,
                later,
                i,
            ) is Nothing,
{
    lemma_given_up_is_final(next(s, spawn_failed(reason)).0, later);
}

/// While probes fail within the limit, each failure is answered with the
/// fixed pause and each pause with the next probe; after as many rounds as
/// there are `reasons`, that many more probes have been counted and nothing
/// else has changed.
pub proof fn lemma_failed_rounds<H>(s: State<H>, reasons: Seq<String>)
    requires
        s.phase is Probing,
        s.phase->Probing_attempt + reasons.len() <= MAX_RETRIES,
    ensures
        failed_rounds::<H>(reasons).len() == 2 * reasons.len(),
        run(s, failed_rounds(reasons)) == s.at(
            Phase::Probing { attempt: (s.phase->Probing_attempt + reasons.len()) as u32 },
        ),
        forall|i: int|
            0 <= i < 2 * reasons.len() ==> #[trigger] action_at(s, failed_rounds(reasons), i)
                == retry_action::<H>(i),
    decreases reasons.len(),
{
    let rounds = failed_rounds::<H>(reasons);
    if reasons.len() == 0 {
        assert(s.at(s.phase) == s);
    } else {
        let before = failed_rounds::<H>(reasons.drop_last());
        let failed = before.push(probe_failed(reasons.last()));
        lemma_failed_rounds(s, reasons.drop_last());
        assert(failed.drop_last() =~= before);
        assert(rounds.drop_last() =~= failed);
        assert(run(s, failed) == next(run(s, before), probe_failed(reasons.last())).0);
        assert(run(s, rounds) == next(run(s, failed), delay_elapsed()).0);
        assert forall|i: int| 0 <= i < 2 * reasons.len() implies #[trigger] action_at(s, rounds, i)
            == retry_action::<H>(i) by {
            if i < before.len() {
                assert(rounds.take(i) =~= before.take(i));
                assert(action_at(s, before, i) == retry_action::<H>(i));
            } else if i == before.len() {
                assert(rounds.take(i) =~= before);
            } else {
                assert(rounds.take(i) =~= failed);
            }
        }
    }
}

/// A backend that answers none of the probes it is allowed gives up the
/// startup with the timeout error, which carries the number of probes and
/// the reason of the last failure; up to then every failure was answered
/// with the pause and every pause with the next probe.
pub proof fn lemma_unanswered_probes_time_out<H>(
    s: State<H>,
    reasons: Seq<String>,
    last_reason: String,
)
    requires
        s.phase is Probing,
        s.phase->Probing_attempt + reasons.len() == MAX_RETRIES,
    ensures
        run(s, failed_rounds(reasons).push(probe_failed(last_reason))) == s.at(Phase::Failed),
        action_at(
            s,
            failed_rounds(reasons).push(probe_failed(last_reason)),
            2 * (reasons.len() as int),
        )
            == (Action::<H>::Abort {
            error: StartupError::Timeout { attempts: MAX_RETRIES, reason: last_reason },
        }),
        forall|i: int|
            0 <= i < 2 * reasons.len() ==> #[trigger] action_at(
                s,
                failed_rounds(reasons).push(probe_failed(last_reason)),
                i,
            ) == retry_action::<H>(i),
{
    let rounds = failed_rounds::<H>(reasons);
    let events = rounds.push(probe_failed(last_reason));
    lemma_failed_rounds(s, reasons);
    assert(events.drop_last() =~= rounds);
    assert(events.take(2 * (reasons.len() as int)) =~= rounds);
    assert forall|i: int| 0 <= i < 2 * reasons.len() implies #[trigger] action_at(s, events, i)
        == retry_action::<H>(i) by {
        assert(events.take(i) =~= rounds.take(i));
        assert(action_at(s, rounds, i) == retry_action::<H>(i));
    }
}

/// Once the backend is ready it stays ready, and no event makes the
/// supervisor ask for another probe or pause.
pub proof fn lemma_ready_is_final<H>(s: State<H>, later: Seq<Event<H>>)
    requires
        s.phase is Ready,
    ensures
        run(s, later).phase is Ready,
        forall|i: int|
            0 <= i < later.len() ==> !(#[trigger] action_at(s, later, i) is Probe) && !(action_at(
                s,
                later,
                i,
            ) is Sleep),
    decreases later.len(),
{
    if later.len() > 0 {
        lemma_ready_is_final(s, later.drop_last());
    }
    assert forall|i: int| 0 <= i < later.len() implies !(#[trigger] action_at(s, later, i)
        is Probe) && !(action_at(s, later, i) is Sleep) by {
        lemma_ready_is_final(s, later.take(i));
    }
}

/// A backend that answers a probe within the limit, after any number of
/// failed rounds, completes the startup; whatever is reported later, no
/// further probe or pause is asked for.
pub proof fn lemma_answer_ends_polling<H>(
    s: State<H>,
    reasons: Seq<String>,
    later: Seq<Event<H>>,
)
    requires
        s.phase is Probing,
        s.phase->Probing_attempt + reasons.len() <= MAX_RETRIES,
    ensures
        run(s, failed_rounds(reasons).push(probe_succeeded())) == s.at(Phase::Ready),
        action_at(
            s,
            failed_rounds(reasons).push(probe_succeeded()),
            2 * (reasons.len() as int),
        )
            == Action::<H>::Ready,
        forall|i: int|
            0 <= i < 2 * reasons.len() ==> #[trigger] action_at(
                s,
                failed_rounds(reasons).push(probe_succeeded()),
                i,
            ) == retry_action::<H>(i),
        forall|i: int|
            0 <= i < later.len() ==> !(#[trigger] action_at(s.at(Phase::Ready), later, i)
                is Probe) && !(action_at(s.at(Phase::Ready), later, i) is Sleep),
{
    let rounds = failed_rounds::<H>(reasons);
    let events = rounds.push(probe_succeeded());
    lemma_failed_rounds(s, reasons);
    assert(events.drop_last() =~= rounds);
    assert(events.take(2 * (reasons.len() as int)) =~= rounds);
    assert forall|i: int| 0 <= i < 2 * reasons.len() implies #[trigger] action_at(s, events, i)
        == retry_action::<H>(i) by {
        assert(events.take(i) =~= rounds.take(i));
        assert(action_at(s, rounds, i) == retry_action::<H>(i));
    }
    lemma_ready_is_final(s.at(Phase::Ready), later);
}

/// Once a spawn has been decided and no process is held, none is held ever
/// after, and nothing is asked to be killed.
pub proof fn lemma_nothing_left_to_kill<H>(s: State<H>, later: Seq<Event<H>>)
    requires
        !s.before_spawn(),
        s.child is None,
    ensures
        !run(s, later).before_spawn(),
        run(s, later).child is None,
        forall|i: int| 0 <= i < later.len() ==> !(#[trigger] action_at(s, later, i) is Kill),
    decreases later.len(),
{
    if later.len() > 0 {
        lemma_nothing_left_to_kill(s, later.drop_last());
    }
    assert forall|i: int| 0 <= i < later.len() implies !(#[trigger] action_at(s, later, i)
        is Kill) by {
        lemma_nothing_left_to_kill(s, later.take(i));
    }
}

/// The destruction of the window hands out a held process to be killed and
/// leaves none behind; whatever is reported later, further destructions
/// among it, nothing is asked to be killed again.
pub proof fn lemma_killed_exactly_once<H>(s: State<H>, child: H, later: Seq<Event<H>>)
    requires
        s.wf(),
        s.child == Some(child),
    ensures
        next(s, Event::WindowDestroyed) == (
            State::<H> { phase: s.phase, child: None },
            Action::Kill { child },
        ),
        next(next(s, Event::WindowDestroyed).0, Event::WindowDestroyed) == (
            next(s, Event::WindowDestroyed).0,
            Action::<H>::Nothing,
        ),
        run(next(s, Event::WindowDestroyed).0, later).child is None,
        forall|i: int|
            0 <= i < later.len() ==> !(#[trigger] action_at(
                next(s, Event::WindowDestroyed).0,
                later,
                i,
            ) is Kill),
{
    lemma_nothing_left_to_kill(next(s, Event::WindowDestroyed).0, later);
}

} // verus!
