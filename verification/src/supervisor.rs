//! The supervision state machine.
//!
//! One tick of the host's event loop is a short conversation. The host opens
//! it with [`Event::Tick`]; the supervisor answers each event with an
//! [`Action`]; the host performs the action and reports its outcome as the
//! next event, until the answer is [`Action::Wait`] or [`Action::Stop`].
//! What the supervisor decides is [`SupervisorView::transition`], a function
//! of its state and the event alone.

use vstd::prelude::*;
use crate::command::Command;
use crate::config::Config;
use crate::error::{KillError, LaunchError};
use crate::slot::ProcessSlot;

verus! {

/// Where the supervisor stands in the conversation with its host.
#[derive(Clone, Copy, Debug, PartialEq, Eq, Structural)]
pub enum Phase {
    /// Between two ticks.
    Ready,
    /// Ensure-running asked for a launch and waits for its outcome.
    EnsureLaunching,
    /// The command source was asked and its answer is awaited.
    Polling,
    /// `Restart` asked for a launch and waits for its outcome.
    RestartLaunching,
    /// `Restart` asked to terminate the replaced process.
    RestartKilling,
    /// `Quit` asked to terminate the owned process.
    QuitKilling,
    /// The session is over, by `Quit` or by a failed launch.
    Stopped,
}

/// The supervisor as the rest of the system sees it.
#[derive(Clone, Copy, Debug, PartialEq, Eq, Structural)]
pub enum SupervisorState {
    /// No process is owned.
    NoProcess,
    /// A process is owned.
    Running,
    /// The session is ending or has ended; nothing is launched any more.
    ShuttingDown,
}

/// What the host reports to the supervisor.
#[derive(Debug, PartialEq, Eq)]
pub enum Event<H> {
    /// The event loop woke up.
    Tick,
    /// Outcome of an [`Action::Launch`]: the handle of the fresh process, or
    /// why there is none.
    Launched(Result<H, LaunchError>),
    /// Outcome of an [`Action::Poll`]: the identifier of the menu item that
    /// was clicked, or `None` when nothing is pending.
    Polled(Option<String>),
    /// Outcome of an [`Action::Kill`].
    Killed(Result<(), KillError>),
}

/// What the supervisor asks the host to do next.
#[derive(Debug, PartialEq, Eq)]
pub enum Action<H> {
    /// Start the configured program and report [`Event::Launched`].
    Launch,
    /// Ask the command source, without blocking, and report [`Event::Polled`].
    Poll,
    /// Terminate the process behind this handle, which the supervisor has
    /// given up, and report [`Event::Killed`].
    Kill(H),
    /// The tick is done: wait for the next wake-up and report [`Event::Tick`].
    Wait,
    /// The session is over: leave the event loop.
    Stop,
}

/// The state of a [`Supervisor`] as plain values.
pub struct SupervisorView<H> {
    /// The configuration the session was started with.
    pub config: Config,
    /// The place in the conversation.
    pub phase: Phase,
    /// The handle in the process slot.
    pub handle: Option<H>,
    /// The diagnostic of the launch failure that ended the session.
    pub error: Option<Seq<char>>,
}

/// The command that the answer of the command source stands for.
pub open spec fn polled_command(polled: Option<String>) -> Option<Command> {
    match polled {
        Some(id) => Command::spec_from_id(id@),
        None => None,
    }
}

impl<H> SupervisorView<H> {
    /// The state in which a session begins.
    pub open spec fn initial(config: Config) -> Self {
        SupervisorView { config, phase: Phase::Ready, handle: None, error: None }
    }

    /// What holds of every supervisor: a launch for ensure-running is only
    /// under way while no process is owned, and a terminal error is only
    /// held once the session is over.
    pub open spec fn wf(self) -> bool {
        &&& self.phase == Phase::EnsureLaunching ==> self.handle is None
        &&& self.error is Some ==> self.phase == Phase::Stopped
    }

    /// See [`Supervisor::state`].
    pub open spec fn state(self) -> SupervisorState {
        if self.phase == Phase::Stopped || self.phase == Phase::QuitKilling {
            SupervisorState::ShuttingDown
        } else if self.handle is Some {
            SupervisorState::Running
        } else {
            SupervisorState::NoProcess
        }
    }

    /// This state, moved to another phase.
    pub open spec fn at(self, phase: Phase) -> Self {
        SupervisorView { phase, ..self }
    }

    /// This state, moved to another phase and owning `handle`.
    pub open spec fn holding(self, phase: Phase, handle: H) -> Self {
        SupervisorView { phase, handle: Some(handle), ..self }
    }

    /// This state, ended by a failed launch. The slot is left as it is.
    pub open spec fn failed(self, error: LaunchError) -> Self {
        SupervisorView { phase: Phase::Stopped, error: Some(error@), ..self }
    }

    /// The decision of the supervisor: the state that follows and the action
    /// asked of the host, or `None` where the phase does not await `event`.
    pub open spec fn transition(self, event: Event<H>) -> Option<(Self, Action<H>)> {
        match self.phase {
            Phase::Ready => match event {
                Event::Tick => if self.handle is Some {
                    Some((self.at(Phase::Polling), Action::Poll))
                } else {
                    Some((self.at(Phase::EnsureLaunching), Action::Launch))
                },
                _ => None,
            },
            Phase::EnsureLaunching => match event {
                Event::Launched(Ok(fresh)) => Some(
                    (self.holding(Phase::Polling, fresh), Action::Poll),
                ),
                Event::Launched(Err(error)) => Some((self.failed(error), Action::Stop)),
                _ => None,
            },
            Phase::Polling => match event {
                Event::Polled(polled) => match polled_command(polled) {
                    Some(Command::Restart) => Some(
                        (self.at(Phase::RestartLaunching), Action::Launch),
                    ),
                    Some(Command::Quit) => match self.handle {
                        Some(owned) => Some(
                            (
                                SupervisorView { phase: Phase::QuitKilling, handle: None, ..self },
                                Action::Kill(owned),
                            ),
                        ),
                        None => Some((self.at(Phase::Stopped), Action::Stop)),
                    },
                    None => Some((self.at(Phase::Ready), Action::Wait)),
                },
                _ => None,
            },
            Phase::RestartLaunching => match event {
                Event::Launched(Ok(fresh)) => match self.handle {
                    Some(previous) => Some(
                        (self.holding(Phase::RestartKilling, fresh), Action::Kill(previous)),
                    ),
                    None => Some((self.holding(Phase::Ready, fresh), Action::Wait)),
                },
                Event::Launched(Err(error)) => Some((self.failed(error), Action::Stop)),
                _ => None,
            },
            Phase::RestartKilling => match event {
                Event::Killed(_) => Some((self.at(Phase::Ready), Action::Wait)),
                _ => None,
            },
            Phase::QuitKilling => match event {
                Event::Killed(_) => Some((self.at(Phase::Stopped), Action::Stop)),
                _ => None,
            },
            Phase::Stopped => match event {
                Event::Tick => Some((self, Action::Stop)),
                _ => None,
            },
        }
    }

    /// Whether the phase is one that `action` leads to: the outcome of
    /// `action` is what the supervisor waits for.
    pub open spec fn pending(self, action: Action<H>) -> bool {
        match action {
            Action::Launch => self.phase == Phase::EnsureLaunching || self.phase
                == Phase::RestartLaunching,
            Action::Poll => self.phase == Phase::Polling,
            Action::Kill(_) => self.phase == Phase::RestartKilling || self.phase
                == Phase::QuitKilling,
            Action::Wait => self.phase == Phase::Ready,
            Action::Stop => self.phase == Phase::Stopped,
        }
    }

    /// Whether the phase awaits `event`.
    pub open spec fn awaits(self, event: Event<H>) -> bool {
        self.transition(event) is Some
    }

    /// The state after `event`; the same state where `event` is not awaited.
    pub open spec fn next(self, event: Event<H>) -> Self {
        match self.transition(event) {
            Some((next, _)) => next,
            None => self,
        }
    }

    /// The action that answers an awaited `event`.
    pub open spec fn action(self, event: Event<H>) -> Action<H>
        recommends
            self.awaits(event),
    {
        self.transition(event)->Some_0.1
    }
}

/// Keeps one background process alive and reacts to `Restart` and `Quit`.
///
/// The supervisor never touches the operating system. It owns the process
/// slot and the terminal error, and tells its host what to do: one action at
/// a time through [`Supervisor::step`], or a tick at a time through
/// [`Supervisor::tick`].
pub struct Supervisor<H> {
    config: Config,
    phase: Phase,
    slot: ProcessSlot<H>,
    error: Option<LaunchError>,
}

impl<H> View for Supervisor<H> {
    type V = SupervisorView<H>;

    closed spec fn view(&self) -> SupervisorView<H> {
        SupervisorView {
            config: self.config,
            phase: self.phase,
            handle: self.slot@,
            error: match self.error {
                Some(error) => Some(error@),
                None => None,
            },
        }
    }
}

impl<H> Supervisor<H> {
    #[verifier::type_invariant]
    spec fn well_formed(self) -> bool {
        self@.wf()
    }

    /// A supervisor at the start of a session: no process, no error, ready
    /// for the first tick.
    pub fn new(config: Config) -> (supervisor: Self)
        ensures
            supervisor@ == SupervisorView::<H>::initial(config),
            supervisor@.wf(),
    {
        Supervisor { config, phase: Phase::Ready, slot: ProcessSlot::new(), error: None }
    }

    /// The configuration of the session; it never changes.
    pub fn config(&self) -> (config: &Config)
        ensures
            *config == self@.config,
    {
        &self.config
    }

    /// The place in the conversation with the host.
    pub fn phase(&self) -> (phase: Phase)
        ensures
            phase == self@.phase,
    {
        self.phase
    }

    /// `ShuttingDown` once `Quit` was taken or a launch failed; before that,
    /// `Running` while a handle is in the slot and `NoProcess` while none is.
    /// Whether the process behind the handle is still alive is not looked at.
    pub fn state(&self) -> (state: SupervisorState)
        ensures
            state == self@.state(),
    {
        match self.phase {
            Phase::Stopped | Phase::QuitKilling => SupervisorState::ShuttingDown,
            _ => if self.slot.is_present() {
                SupervisorState::Running
            } else {
                SupervisorState::NoProcess
            },
        }
    }

    /// The handle in the process slot, if any.
    pub fn handle(&self) -> (handle: Option<&H>)
        ensures
            handle == match self@.handle {
                Some(h) => Some(&h),
                None => None,
            },
    {
        self.slot.handle()
    }

    /// The launch failure that ended the session, if one did.
    pub fn error(&self) -> (error: Option<&LaunchError>)
        ensures
            match error {
                Some(e) => self@.error == Some(e@),
                None => self@.error is None,
            },
    {
        self.error.as_ref()
    }

    /// Ends the session and gives out its terminal error, if there is one.
    /// A handle still in the slot is dropped with the supervisor; the
    /// process behind it is left running.
    pub fn into_error(self) -> (error: Option<LaunchError>)
        ensures
            match error {
                Some(e) => self@.error == Some(e@),
                None => self@.error is None,
            },
    {
        self.error
    }

    /// Takes one event from the host and answers with the action to perform.
    ///
    /// An event that the supervisor is not waiting for changes nothing and is
    /// handed back as `Err`. The supervisor is well-formed before the call
    /// and after it.
    pub fn step(&mut self, event: Event<H>) -> (outcome: Result<Action<H>, Event<H>>)
        ensures
            old(self)@.wf(),
            final(self)@.wf(),
            match old(self)@.transition(event) {
                Some((next, action)) => final(self)@ == next && outcome == Ok::<
                    Action<H>,
                    Event<H>,
                >(action),
                None => final(self)@ == old(self)@ && outcome == Err::<Action<H>, Event<H>>(
                    event,
                ),
            },
    {
        proof {
            use_type_invariant(&*self);
        }
        match self.phase {
            Phase::Ready => match event {
                Event::Tick => {
                    if self.slot.is_present() {
                        self.phase = Phase::Polling;
                        Ok(Action::Poll)
                    } else {
                        self.phase = Phase::EnsureLaunching;
                        Ok(Action::Launch)
                    }
                },
                other => Err(other),
            },
            Phase::EnsureLaunching => match event {
                Event::Launched(Ok(fresh)) => {
                    self.phase = Phase::Polling;
                    self.slot.replace(fresh);
                    Ok(Action::Poll)
                },
                Event::Launched(Err(error)) => {
                    self.phase = Phase::Stopped;
                    self.error = Some(error);
                    Ok(Action::Stop)
                },
                other => Err(other),
            },
            Phase::Polling => match event {
                Event::Polled(polled) => {
                    let command = match &polled {
                        Some(id) => Command::from_id(id.as_str()),
                        None => None,
                    };
                    match command {
                        Some(Command::Restart) => {
                            self.phase = Phase::RestartLaunching;
                            Ok(Action::Launch)
                        },
                        Some(Command::Quit) => match self.slot.take() {
                            Some(owned) => {
                                self.phase = Phase::QuitKilling;
                                Ok(Action::Kill(owned))
                            },
                            None => {
                                self.phase = Phase::Stopped;
                                Ok(Action::Stop)
                            },
                        },
                        None => {
                            self.phase = Phase::Ready;
                            Ok(Action::Wait)
                        },
                    }
                },
                other => Err(other),
            },
            Phase::RestartLaunching => match event {
                Event::Launched(Ok(fresh)) => match self.slot.replace(fresh) {
                    Some(previous) => {
                        self.phase = Phase::RestartKilling;
                        Ok(Action::Kill(previous))
                    },
                    None => {
                        self.phase = Phase::Ready;
                        Ok(Action::Wait)
                    },
                },
                Event::Launched(Err(error)) => {
                    self.phase = Phase::Stopped;
                    self.error = Some(error);
                    Ok(Action::Stop)
                },
                other => Err(other),
            },
            Phase::RestartKilling => match event {
                Event::Killed(_) => {
                    self.phase = Phase::Ready;
                    Ok(Action::Wait)
                },
                other => Err(other),
            },
            Phase::QuitKilling => match event {
                Event::Killed(_) => {
                    self.phase = Phase::Stopped;
                    Ok(Action::Stop)
                },
                other => Err(other),
            },
            Phase::Stopped => match event {
                Event::Tick => Ok(Action::Stop),
                other => Err(other),
            },
        }
    }
}

} // verus!
