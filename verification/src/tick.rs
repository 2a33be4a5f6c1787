//! A whole tick in one call, for a host whose effects are plain calls.
//!
//! [`Supervisor::tick`] holds the conversation of one tick by itself: it
//! performs each action through one of three capabilities handed in by the
//! host and feeds the outcome to [`Supervisor::step`]. Nothing is assumed of
//! what a capability returns.

use vstd::prelude::*;
use crate::config::Config;
use crate::error::{KillError, LaunchError};
use crate::laws::{law_answer_names_the_awaited_event, law_tick_runs_forward, tick_rank};
use crate::supervisor::{Action, Event, Phase, Supervisor, SupervisorView};

verus! {

impl<H> SupervisorView<H> {
    /// Whether `reply` reports an outcome that the capability behind
    /// `action` can have: `launch` called on the configuration of the
    /// session, `poll` called, or `kill` called on the handle given up.
    /// Nothing reports on `Wait` or `Stop`.
    pub open spec fn reports<L, P, K>(
        self,
        action: Action<H>,
        reply: Event<H>,
        launch: &L,
        poll: &P,
        kill: &K,
    ) -> bool where
        L: Fn(&Config) -> Result<H, LaunchError>,
        P: Fn() -> Option<String>,
        K: Fn(H) -> Result<(), KillError>,
     {
        match action {
            Action::Launch => reply matches Event::Launched(outcome) && call_ensures(
                *launch,
                (&self.config,),
                outcome,
            ),
            Action::Poll => reply matches Event::Polled(polled) && call_ensures(
                *poll,
                (),
                polled,
            ),
            Action::Kill(handle) => reply matches Event::Killed(outcome) && call_ensures(
                *kill,
                (handle,),
                outcome,
            ),
            Action::Wait => false,
            Action::Stop => false,
        }
    }

    /// Whether `replies` is a way for the tick to go on and end, from this
    /// state and the `action` just asked for: each reply reports on the
    /// action before it and is taken by the supervisor, and the answer to
    /// the last one is `Wait` or `Stop`.
    pub open spec fn completes<L, P, K>(
        self,
        action: Action<H>,
        replies: Seq<Event<H>>,
        launch: &L,
        poll: &P,
        kill: &K,
    ) -> bool where
        L: Fn(&Config) -> Result<H, LaunchError>,
        P: Fn() -> Option<String>,
        K: Fn(H) -> Result<(), KillError>,

        decreases replies.len(),
    {
        if replies.len() == 0 {
            action is Wait || action is Stop
        } else {
            &&& self.reports(action, replies.first(), launch, poll, kill)
            &&& self.awaits(replies.first())
            &&& self.next(replies.first()).completes(
                self.action(replies.first()),
                replies.drop_first(),
                launch,
                poll,
                kill,
            )
        }
    }
}

impl<H> SupervisorView<H> {
    /// Whether ensure-running has done its part: from the poll to the end
    /// of the tick a process is owned, but for the time of a launch that
    /// `Restart` asked for.
    spec fn ensured(self) -> bool {
        self.phase == Phase::Polling || self.phase == Phase::RestartKilling || self.phase
            == Phase::Ready ==> self.handle is Some
    }
}

impl<H> Supervisor<H> {
    /// Runs one tick: ensure-running first, then at most one command.
    ///
    /// `launch` starts the configured program, `poll` asks the command
    /// source without blocking, `kill` terminates a process. The result
    /// tells whether the session is over and the event loop is to be left.
    ///
    /// Between two ticks, the tick is a conversation as [`Supervisor::step`]
    /// holds it, opened by [`Event::Tick`] and carried to its end; unless it
    /// ends the session, it leaves the supervisor between two ticks again
    /// and owning a process. Once the session is over, a tick makes no call
    /// and the result is `true` every time. Called in the middle of a
    /// conversation that the host holds through `step` itself, a tick does
    /// nothing.
    pub fn tick<L, P, K>(&mut self, launch: &L, poll: &P, kill: &K) -> (stop: bool) where
        L: Fn(&Config) -> Result<H, LaunchError>,
        P: Fn() -> Option<String>,
        K: Fn(H) -> Result<(), KillError>,

        requires
            call_requires(*launch, (&old(self)@.config,)),
            call_requires(*poll, ()),
            forall|handle: H| call_requires(*kill, (handle,)),
        ensures
            old(self)@.wf(),
            final(self)@.wf(),
            stop == (final(self)@.phase == Phase::Stopped),
            !old(self)@.awaits(Event::Tick) ==> final(self)@ == old(self)@,
            old(self)@.awaits(Event::Tick) && !stop ==> final(self)@.phase == Phase::Ready
                && final(self)@.handle is Some,
            old(self)@.awaits(Event::Tick) ==> exists|replies: Seq<Event<H>>|
                {
                    &&& #[trigger] old(self)@.next(Event::Tick).completes(
                        old(self)@.action(Event::Tick),
                        replies,
                        launch,
                        poll,
                        kill,
                    )
                    &&& final(self)@ == old(self)@.next(Event::Tick).after(replies)
                },
    {
        let ghost before = self@;
        match self.step(Event::Tick) {
            Ok(action) => {
                proof {
                    law_answer_names_the_awaited_event(before, Event::Tick, Event::Tick);
                }
                self.finish_tick(action, launch, poll, kill)
            },
            Err(_) => false,
        }
    }

    /// Carries a tick on from `action`, the answer that the supervisor has
    /// just given, to the end of the tick.
    fn finish_tick<L, P, K>(&mut self, action: Action<H>, launch: &L, poll: &P, kill: &K) -> (stop:
        bool) where
        L: Fn(&Config) -> Result<H, LaunchError>,
        P: Fn() -> Option<String>,
        K: Fn(H) -> Result<(), KillError>,

        requires
            old(self)@.wf(),
            old(self)@.pending(action),
            old(self)@.ensured(),
            call_requires(*launch, (&old(self)@.config,)),
            call_requires(*poll, ()),
            forall|handle: H| call_requires(*kill, (handle,)),
        ensures
            final(self)@.wf(),
            stop == (final(self)@.phase == Phase::Stopped),
            !stop ==> final(self)@.phase == Phase::Ready && final(self)@.handle is Some,
            exists|replies: Seq<Event<H>>|
                {
                    &&& #[trigger] old(self)@.completes(action, replies, launch, poll, kill)
                    &&& final(self)@ == old(self)@.after(replies)
                },
        decreases
                if action is Wait || action is Stop {
                    0
                } else {
                    6 - tick_rank(old(self)@.phase)
                },
    {
        let ghost before = self@;
        let reply = match action {
            Action::Wait => {
                proof {
                    let none = Seq::<Event<H>>::empty();
                    assert(before.completes(action, none, launch, poll, kill));
                    assert(before.after(none) == before);
                }
                return false;
            },
            Action::Stop => {
                proof {
                    let none = Seq::<Event<H>>::empty();
                    assert(before.completes(action, none, launch, poll, kill));
                    assert(before.after(none) == before);
                }
                return true;
            },
            Action::Launch => Event::Launched(launch(self.config())),
            Action::Poll => Event::Polled(poll()),
            Action::Kill(handle) => Event::Killed(kill(handle)),
        };
        assert(before.reports(action, reply, launch, poll, kill));
        assert(before.awaits(reply));
        match self.step(reply) {
            Ok(next_action) => {
                let ghost between = self@;
                proof {
                    law_answer_names_the_awaited_event(before, reply, reply);
                    law_tick_runs_forward(before, reply);
                }
                let stop = self.finish_tick(next_action, launch, poll, kill);
                proof {
                    let rest = choose|rest: Seq<Event<H>>|
                        {
                            &&& #[trigger] between.completes(next_action, rest, launch, poll, kill)
                            &&& self@ == between.after(rest)
                        };
                    let replies = seq![reply] + rest;
                    assert(replies.first() == reply);
                    assert(replies.drop_first() =~= rest);
                    assert(before.completes(action, replies, launch, poll, kill));
                    assert(before.after(replies) == self@);
                }
                stop
            },
            // Not reached: the reply is of the kind that the supervisor awaits.
            Err(_) => false,
        }
    }
}

} // verus!
