//! Laws of the supervision state machine.
//!
//! Each law is a theorem about [`SupervisorView::transition`], the function
//! that [`Supervisor::step`](crate::supervisor::Supervisor::step) is proved
//! to compute, and holds for every well-formed state and every outcome the
//! host may report.

use vstd::multiset::Multiset;
use vstd::prelude::*;
use crate::command::Command;
use crate::config::Config;
use crate::error::{KillError, LaunchError};
use crate::supervisor::{polled_command, Action, Event, Phase, SupervisorState, SupervisorView};

verus! {

impl<H> SupervisorView<H> {
    /// The state reached when `events` arrive in order.
    pub open spec fn after(self, events: Seq<Event<H>>) -> Self
        decreases events.len(),
    {
        if events.len() == 0 {
            self
        } else {
            self.next(events.first()).after(events.drop_first())
        }
    }

    /// The actions asked of the host while `events` arrive in order. An
    /// event that is not awaited asks for nothing.
    pub open spec fn asked(self, events: Seq<Event<H>>) -> Seq<Action<H>>
        decreases events.len(),
    {
        if events.len() == 0 {
            Seq::empty()
        } else {
            let later = self.next(events.first()).asked(events.drop_first());
            match self.transition(events.first()) {
                Some((_, action)) => seq![action] + later,
                None => later,
            }
        }
    }

    /// Whether `Stop` is the only answer given while `events` arrive in
    /// order: no launch, poll or kill is asked for, and the host is never
    /// told to wait for another tick.
    pub open spec fn only_stops(self, events: Seq<Event<H>>) -> bool {
        forall|i: int|
            0 <= i < self.asked(events).len() ==> #[trigger] self.asked(events)[i]
                == Action::<H>::Stop
    }

    /// What holds at every point of a session: the state is well-formed,
    /// a process is owned whenever a command is drained or a restart is
    /// under way, and none is owned any more once `Quit` asked for the kill.
    pub open spec fn in_session(self) -> bool {
        &&& self.wf()
        &&& self.phase == Phase::Polling || self.phase == Phase::RestartLaunching || self.phase
            == Phase::RestartKilling ==> self.handle is Some
        &&& self.phase == Phase::QuitKilling ==> self.handle is None
    }
}

/// The identifiers of the two commands differ, so each identifier is read
/// back as the command it was made for.
pub proof fn law_command_ids_round_trip(command: Command)
    ensures
        Command::spec_from_id(command.spec_id()) == Some(command),
{
    reveal_strlit("Restart");
    reveal_strlit("Quit");
    assert("Restart"@.len() == 7);
    assert("Quit"@.len() == 4);
}

/// Every event keeps a well-formed state well-formed, keeps the
/// configuration as it is, and leaves the terminal error alone once it is
/// set: the first failure is the one that is kept.
pub proof fn law_invariants_are_kept<H>(state: SupervisorView<H>, event: Event<H>)
    requires
        state.wf(),
    ensures
        state.next(event).wf(),
        state.next(event).config == state.config,
        state.error is Some ==> state.next(event).error == state.error,
{
}

/// Ensure-running keeps its promise: whatever the host reports from the
/// start of a session on, no command is ever drained while no process is
/// owned.
pub proof fn law_ensure_running_guarantees_a_process<H>(
    config: Config,
    events: Seq<Event<H>>,
)
    ensures
        SupervisorView::<H>::initial(config).after(events).in_session(),
{
    lemma_session_goes_on(SupervisorView::<H>::initial(config), events);
}

proof fn lemma_session_goes_on<H>(state: SupervisorView<H>, events: Seq<Event<H>>)
    requires
        state.in_session(),
    ensures
        state.after(events).in_session(),
    decreases events.len(),
{
    if events.len() > 0 {
        lemma_session_goes_on(state.next(events.first()), events.drop_first());
    }
}

/// The answer of the supervisor names the one kind of event it accepts
/// next: a launch outcome after `Launch`, the polled command after `Poll`,
/// a kill outcome after `Kill`, the next tick after `Wait` and after `Stop`.
pub proof fn law_answer_names_the_awaited_event<H>(
    state: SupervisorView<H>,
    event: Event<H>,
    reply: Event<H>,
)
    requires
        state.wf(),
        state.awaits(event),
    ensures
        state.next(event).pending(state.action(event)),
        state.next(event).awaits(reply) <==> match state.action(event) {
            Action::Launch => reply is Launched,
            Action::Poll => reply is Polled,
            Action::Kill(_) => reply is Killed,
            Action::Wait => reply is Tick,
            Action::Stop => reply is Tick,
        },
{
}

/// The place of a phase in the course of one tick.
pub open spec fn tick_rank(phase: Phase) -> nat {
    match phase {
        Phase::Ready => 0,
        Phase::EnsureLaunching => 1,
        Phase::Polling => 2,
        Phase::RestartLaunching => 3,
        Phase::QuitKilling => 3,
        Phase::RestartKilling => 4,
        Phase::Stopped => 5,
    }
}

/// A tick runs forward and ends: every awaited event either closes the tick,
/// with `Wait` or `Stop`, or moves the supervisor to a later phase of the
/// same tick. `Polling` is entered at most once in a tick, after
/// ensure-running, so the command source is asked at most once.
pub proof fn law_tick_runs_forward<H>(state: SupervisorView<H>, event: Event<H>)
    requires
        state.wf(),
        state.awaits(event),
    ensures
        state.action(event) is Wait || state.action(event) is Stop || tick_rank(state.phase)
            < tick_rank(state.next(event).phase),
        state.action(event) is Poll <==> state.next(event).phase == Phase::Polling,
{
}

/// No handle is lost or duplicated: a handle enters with a successful
/// launch, stays in the slot for as long as it is owned, and leaves inside
/// the `Kill` that gives it up.
pub proof fn law_handles_change_hands_once<H>(state: SupervisorView<H>, event: Event<H>)
    requires
        state.wf(),
        state.awaits(event),
    ensures
        owned(state.handle).add(arriving(event)) == owned(state.next(event).handle).add(
            leaving(state.action(event)),
        ),
{
    assert(owned(state.handle).add(arriving(event)) =~= owned(state.next(event).handle).add(
        leaving(state.action(event)),
    ));
}

/// The handles in a slot.
pub open spec fn owned<H>(slot: Option<H>) -> Multiset<H> {
    match slot {
        Some(handle) => Multiset::singleton(handle),
        None => Multiset::empty(),
    }
}

/// The handles that an event brings to the supervisor.
pub open spec fn arriving<H>(event: Event<H>) -> Multiset<H> {
    match event {
        Event::Launched(Ok(handle)) => Multiset::singleton(handle),
        _ => Multiset::empty(),
    }
}

/// The handles that an action hands to the host.
pub open spec fn leaving<H>(action: Action<H>) -> Multiset<H> {
    match action {
        Action::Kill(handle) => Multiset::singleton(handle),
        _ => Multiset::empty(),
    }
}

/// Once the session is over nothing happens any more: whatever arrives, the
/// state stays as it is, terminal error included, and the only answer ever
/// given is `Stop`. No launch, poll or kill is asked for again.
pub proof fn law_stopped_is_final<H>(state: SupervisorView<H>, events: Seq<Event<H>>)
    requires
        state.phase == Phase::Stopped,
    ensures
        state.after(events) == state,
        state.only_stops(events),
    decreases events.len(),
{
    if events.len() > 0 {
        assert(state.next(events.first()) == state);
        law_stopped_is_final(state, events.drop_first());
    }
}

/// A tick that begins with no process owned opens with exactly one launch,
/// and no command is drained before the outcome of that launch is in: until
/// then only the outcome is accepted, a handle leads on to the poll, and a
/// failure ends the tick without a poll. A tick that begins with a process
/// owned polls at once.
pub proof fn law_ensure_running_precedes_draining<H>(
    state: SupervisorView<H>,
    outcome: Result<H, LaunchError>,
    other: Event<H>,
)
    requires
        state.wf(),
        state.awaits(Event::Tick),
        state.state() != SupervisorState::ShuttingDown,
    ensures
        state.handle is Some ==> state.action(Event::Tick) == Action::<H>::Poll,
        state.handle is None ==> {
            let launching = state.next(Event::Tick);
            &&& state.action(Event::Tick) == Action::<H>::Launch
            &&& launching.awaits(other) ==> other is Launched
            &&& launching.awaits(Event::Launched(outcome))
            &&& launching.action(Event::Launched(outcome)) == match outcome {
                Ok(_) => Action::<H>::Poll,
                Err(_) => Action::<H>::Stop,
            }
            &&& outcome matches Ok(fresh) ==> launching.next(Event::Launched(outcome)).handle
                == Some(fresh)
        },
{
}

/// A tick as [`Supervisor::tick`](crate::supervisor::Supervisor::tick)
/// holds it is short and in order. It makes at most four calls. Where no
/// process is owned it begins with the launch of ensure-running. The command
/// source is asked at most once, and right after ensure-running: as the
/// first call where a process is owned, as the second where one had to be
/// launched. At most one process is killed, and that is the last call of the
/// tick. Once the session is over a tick makes no call at all.
pub proof fn law_tick_ensures_then_drains_once<H, L, P, K>(
    state: SupervisorView<H>,
    replies: Seq<Event<H>>,
    launch: &L,
    poll: &P,
    kill: &K,
) where
    L: Fn(&Config) -> Result<H, LaunchError>,
    P: Fn() -> Option<String>,
    K: Fn(H) -> Result<(), KillError>,

    requires
        state.wf(),
        state.awaits(Event::Tick),
        state.next(Event::Tick).completes(state.action(Event::Tick), replies, launch, poll, kill),
    ensures
        replies.len() <= 4,
        state.state() == SupervisorState::ShuttingDown ==> replies.len() == 0,
        state.state() == SupervisorState::NoProcess ==> replies.len() >= 1
            && replies[0] is Launched,
        forall|i: int|
            0 <= i < replies.len() && (#[trigger] replies[i]) is Polled ==> i == (if state.handle
                is None {
                1int
            } else {
                0int
            }),
        forall|i: int|
            0 <= i < replies.len() && (#[trigger] replies[i]) is Killed ==> i == replies.len() - 1,
{
    reveal_with_fuel(SupervisorView::completes, 6);
}

/// `Restart` with a process owned asks for exactly one launch, keeps the
/// previous handle in the slot until the fresh one is there, then asks for
/// exactly one kill, of the previous handle. Whether that kill succeeds or
/// fails, the tick ends with the slot holding the fresh handle and no error.
pub proof fn law_restart_replaces_then_kills<H>(
    state: SupervisorView<H>,
    polled: Option<String>,
    fresh: H,
    killed: Result<(), KillError>,
)
    requires
        state.wf(),
        state.phase == Phase::Polling,
        state.handle is Some,
        polled_command(polled) == Some(Command::Restart),
    ensures
        ({
            let previous = state.handle->Some_0;
            let launching = state.next(Event::Polled(polled));
            let killing = launching.next(Event::Launched(Ok(fresh)));
            let done = killing.next(Event::Killed(killed));
            &&& state.action(Event::Polled(polled)) == Action::<H>::Launch
            &&& launching.handle == Some(previous)
            &&& launching.action(Event::Launched(Ok(fresh))) == Action::Kill(previous)
            &&& killing.handle == Some(fresh)
            &&& killing.action(Event::Killed(killed)) == Action::<H>::Wait
            &&& done.phase == Phase::Ready
            &&& done.handle == Some(fresh)
            &&& done.error is None
        }),
{
}

/// `Restart` with no process owned does what ensure-running does: one
/// launch, the fresh handle stored, and no kill, the tick being over as soon
/// as the handle is in the slot.
pub proof fn law_restart_without_process_only_launches<H>(
    state: SupervisorView<H>,
    polled: Option<String>,
    fresh: H,
)
    requires
        state.wf(),
        state.phase == Phase::Polling,
        state.handle is None,
        polled_command(polled) == Some(Command::Restart),
    ensures
        ({
            let launching = state.next(Event::Polled(polled));
            let ensuring = state.at(Phase::Ready).next(Event::Tick);
            &&& state.action(Event::Polled(polled)) == Action::<H>::Launch
            &&& launching.action(Event::Launched(Ok(fresh))) == Action::<H>::Wait
            &&& launching.next(Event::Launched(Ok(fresh))).phase == Phase::Ready
            &&& state.at(Phase::Ready).action(Event::Tick) == Action::<H>::Launch
            &&& launching.next(Event::Launched(Ok(fresh))).handle == Some(fresh)
            &&& ensuring.next(Event::Launched(Ok(fresh))).handle == Some(fresh)
        }),
{
}

/// An identifier that stands for no command is ignored: the tick ends as
/// it does when nothing was pending.
pub proof fn law_unknown_command_is_ignored<H>(state: SupervisorView<H>, polled: Option<String>)
    requires
        state.wf(),
        state.phase == Phase::Polling,
        polled_command(polled) is None,
    ensures
        state.transition(Event::Polled(polled)) == state.transition(Event::Polled(None)),
        state.transition(Event::Polled(polled)) == Some((state.at(Phase::Ready), Action::<H>::Wait)),
{
}

/// `Quit` asks for one kill, of the owned handle, or for none where no
/// process is owned; it empties the slot, records no error whatever the
/// kill reports, and ends the session: the answer that closes the tick is
/// `Stop`, and by [`law_stopped_is_final`] nothing is asked for afterwards.
pub proof fn law_quit_kills_at_most_once<H>(
    state: SupervisorView<H>,
    polled: Option<String>,
    killed: Result<(), KillError>,
    later: Seq<Event<H>>,
)
    requires
        state.wf(),
        state.phase == Phase::Polling,
        polled_command(polled) == Some(Command::Quit),
    ensures
        ({
            let quitting = state.next(Event::Polled(polled));
            let stopped = match state.handle {
                Some(_) => quitting.next(Event::Killed(killed)),
                None => quitting,
            };
            &&& state.action(Event::Polled(polled)) == match state.handle {
                Some(owned) => Action::Kill(owned),
                None => Action::<H>::Stop,
            }
            &&& quitting.state() == SupervisorState::ShuttingDown
            &&& state.handle is Some ==> quitting.action(Event::Killed(killed)) == Action::<
                H,
            >::Stop
            &&& stopped.phase == Phase::Stopped
            &&& stopped.handle is None
            &&& stopped.error is None
            &&& stopped.after(later) == stopped
            &&& stopped.only_stops(later)
        }),
{
    let quitting = state.next(Event::Polled(polled));
    let stopped = match state.handle {
        Some(_) => quitting.next(Event::Killed(killed)),
        None => quitting,
    };
    law_stopped_is_final(stopped, later);
}

/// A launch that fails ends the session at once, whether ensure-running
/// asked for it or `Restart` did: the answer is `Stop`, the failure becomes
/// the terminal error, which was empty until then and never changes
/// afterwards, and no launch is asked for again. The slot is left as it was,
/// so a process that `Restart` meant to replace is not killed.
pub proof fn law_failed_launch_is_terminal<H>(
    state: SupervisorView<H>,
    error: LaunchError,
    later: Seq<Event<H>>,
)
    requires
        state.wf(),
        state.phase == Phase::EnsureLaunching || state.phase == Phase::RestartLaunching,
    ensures
        ({
            let halted = state.next(Event::Launched(Err(error)));
            &&& state.error is None
            &&& state.action(Event::Launched(Err(error))) == Action::<H>::Stop
            &&& halted.phase == Phase::Stopped
            &&& halted.error == Some(error@)
            &&& halted.handle == state.handle
            &&& halted.after(later) == halted
            &&& halted.only_stops(later)
        }),
{
    law_stopped_is_final(state.next(Event::Launched(Err(error))), later);
}

/// A kill that fails, during `Restart` or `Quit`, is answered exactly as one
/// that succeeds and leaves no terminal error. After `Restart` the loop goes
/// on with the next tick.
pub proof fn law_failed_kill_is_tolerated<H>(state: SupervisorView<H>, error: KillError)
    requires
        state.wf(),
        state.phase == Phase::RestartKilling || state.phase == Phase::QuitKilling,
    ensures
        state.awaits(Event::Killed(Err(error))),
        state.transition(Event::Killed(Err(error))) == state.transition(Event::Killed(Ok(()))),
        state.next(Event::Killed(Err(error))).error is None,
        state.phase == Phase::RestartKilling ==> state.action(Event::Killed(Err(error)))
            == Action::<H>::Wait && state.next(Event::Killed(Err(error))).phase == Phase::Ready,
{
}

/// A second `Quit` cannot be observed. In the tick of the first one no
/// further command is drained, and once that tick is over the session has
/// stopped: a later `Quit`, like anything else that arrives, is not taken,
/// changes nothing and asks for nothing.
pub proof fn law_quit_twice_is_quit_once<H>(
    state: SupervisorView<H>,
    first: Option<String>,
    second: Option<String>,
    killed: Result<(), KillError>,
    later: Seq<Event<H>>,
)
    requires
        state.wf(),
        state.phase == Phase::Polling,
        polled_command(first) == Some(Command::Quit),
        polled_command(second) == Some(Command::Quit),
    ensures
        ({
            let quitting = state.next(Event::Polled(first));
            let stopped = match state.handle {
                Some(_) => quitting.next(Event::Killed(killed)),
                None => quitting,
            };
            &&& !quitting.awaits(Event::Polled(second))
            &&& !stopped.awaits(Event::Polled(second))
            &&& stopped.transition(Event::Tick) == Some((stopped, Action::<H>::Stop))
            &&& stopped.after(later) == stopped
            &&& stopped.only_stops(later)
        }),
{
    let quitting = state.next(Event::Polled(first));
    let stopped = match state.handle {
        Some(_) => quitting.next(Event::Killed(killed)),
        None => quitting,
    };
    law_stopped_is_final(stopped, later);
}

} // verus!
