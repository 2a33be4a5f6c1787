use tray_supervisor::{
    Action, Command, Config, Event, KillError, LaunchError, Phase, Supervisor, SupervisorState,
};

fn notepad() -> Config {
    Config::new("notepad.exe".to_string(), vec![], None).unwrap()
}

fn clicked(command: Command) -> Event<u32> {
    Event::Polled(Some(command.id().to_string()))
}

/// A supervisor between two ticks that owns `handle`.
fn running(handle: u32) -> Supervisor<u32> {
    let mut supervisor = Supervisor::new(notepad());
    assert_eq!(supervisor.step(Event::Tick), Ok(Action::Launch));
    assert_eq!(supervisor.step(Event::Launched(Ok(handle))), Ok(Action::Poll));
    assert_eq!(supervisor.step(Event::Polled(None)), Ok(Action::Wait));
    supervisor
}

#[test]
fn new_supervisor_owns_nothing() {
    let supervisor: Supervisor<u32> = Supervisor::new(notepad());
    assert_eq!(supervisor.phase(), Phase::Ready);
    assert_eq!(supervisor.state(), SupervisorState::NoProcess);
    assert_eq!(supervisor.handle(), None);
    assert_eq!(supervisor.error(), None);
    assert_eq!(supervisor.config().executable(), "notepad.exe");
}

#[test]
fn first_tick_launches_the_configured_program() {
    let mut supervisor: Supervisor<u32> = Supervisor::new(notepad());
    assert_eq!(supervisor.step(Event::Tick), Ok(Action::Launch));
    assert_eq!(supervisor.phase(), Phase::EnsureLaunching);
    assert_eq!(supervisor.config().executable(), "notepad.exe");
    assert!(supervisor.config().args().is_empty());
    assert_eq!(supervisor.step(Event::Launched(Ok(1))), Ok(Action::Poll));
    assert_eq!(supervisor.handle(), Some(&1));
    assert_eq!(supervisor.state(), SupervisorState::Running);
    assert_eq!(supervisor.step(Event::Polled(None)), Ok(Action::Wait));
    assert_eq!(supervisor.handle(), Some(&1));
    assert_eq!(supervisor.phase(), Phase::Ready);
}

#[test]
fn restart_launches_the_new_process_then_kills_the_old_one() {
    let mut supervisor = running(1);
    assert_eq!(supervisor.step(Event::Tick), Ok(Action::Poll));
    assert_eq!(supervisor.step(clicked(Command::Restart)), Ok(Action::Launch));
    assert_eq!(supervisor.handle(), Some(&1));
    assert_eq!(supervisor.step(Event::Launched(Ok(2))), Ok(Action::Kill(1)));
    assert_eq!(supervisor.handle(), Some(&2));
    assert_eq!(supervisor.step(Event::Killed(Ok(()))), Ok(Action::Wait));
    assert_eq!(supervisor.handle(), Some(&2));
    assert_eq!(supervisor.state(), SupervisorState::Running);
    assert_eq!(supervisor.error(), None);
}

#[test]
fn quit_kills_the_process_and_ends_without_error() {
    let mut supervisor = running(2);
    assert_eq!(supervisor.step(Event::Tick), Ok(Action::Poll));
    assert_eq!(supervisor.step(clicked(Command::Quit)), Ok(Action::Kill(2)));
    assert_eq!(supervisor.handle(), None);
    assert_eq!(supervisor.state(), SupervisorState::ShuttingDown);
    assert_eq!(supervisor.step(Event::Killed(Ok(()))), Ok(Action::Stop));
    assert_eq!(supervisor.phase(), Phase::Stopped);
    assert_eq!(supervisor.state(), SupervisorState::ShuttingDown);
    assert_eq!(supervisor.into_error(), None);
}

#[test]
fn whole_session_from_first_tick_to_quit() {
    let mut supervisor: Supervisor<&str> = Supervisor::new(notepad());
    let mut asked = Vec::new();
    let events = vec![
        Event::Tick,
        Event::Launched(Ok("H1")),
        Event::Polled(None),
        Event::Tick,
        Event::Polled(Some("Restart".to_string())),
        Event::Launched(Ok("H2")),
        Event::Killed(Ok(())),
        Event::Tick,
        Event::Polled(Some("Quit".to_string())),
        Event::Killed(Ok(())),
    ];
    for event in events {
        asked.push(supervisor.step(event).unwrap());
    }
    assert_eq!(
        asked,
        vec![
            Action::Launch,
            Action::Poll,
            Action::Wait,
            Action::Poll,
            Action::Launch,
            Action::Kill("H1"),
            Action::Wait,
            Action::Poll,
            Action::Kill("H2"),
            Action::Stop,
        ]
    );
    assert_eq!(supervisor.into_error(), None);
}

#[test]
fn tick_without_process_launches_once_before_it_polls() {
    let mut supervisor: Supervisor<u32> = Supervisor::new(notepad());
    assert_eq!(supervisor.step(Event::Tick), Ok(Action::Launch));
    // Until the launch has answered, no command is taken.
    assert_eq!(
        supervisor.step(clicked(Command::Quit)),
        Err(clicked(Command::Quit))
    );
    assert_eq!(supervisor.step(Event::Tick), Err(Event::Tick));
    assert_eq!(supervisor.phase(), Phase::EnsureLaunching);
    assert_eq!(supervisor.step(Event::Launched(Ok(5))), Ok(Action::Poll));
}

#[test]
fn tick_with_process_polls_at_once() {
    let mut supervisor = running(3);
    assert_eq!(supervisor.step(Event::Tick), Ok(Action::Poll));
    assert_eq!(supervisor.phase(), Phase::Polling);
    assert_eq!(supervisor.handle(), Some(&3));
}

#[test]
fn quit_right_after_the_first_launch_kills_that_process() {
    let mut supervisor: Supervisor<u32> = Supervisor::new(notepad());
    assert_eq!(supervisor.step(Event::Tick), Ok(Action::Launch));
    assert_eq!(supervisor.step(Event::Launched(Ok(9))), Ok(Action::Poll));
    assert_eq!(supervisor.step(clicked(Command::Quit)), Ok(Action::Kill(9)));
    assert_eq!(supervisor.step(Event::Killed(Ok(()))), Ok(Action::Stop));
}

#[test]
fn failed_kill_during_restart_changes_nothing() {
    let mut supervisor = running(1);
    supervisor.step(Event::Tick).unwrap();
    supervisor.step(clicked(Command::Restart)).unwrap();
    assert_eq!(supervisor.step(Event::Launched(Ok(2))), Ok(Action::Kill(1)));
    let gone = KillError::new("process has already exited".to_string());
    assert_eq!(supervisor.step(Event::Killed(Err(gone))), Ok(Action::Wait));
    assert_eq!(supervisor.phase(), Phase::Ready);
    assert_eq!(supervisor.handle(), Some(&2));
    assert_eq!(supervisor.error(), None);
    // The loop goes on.
    assert_eq!(supervisor.step(Event::Tick), Ok(Action::Poll));
}

#[test]
fn failed_kill_during_quit_leaves_no_error() {
    let mut supervisor = running(4);
    supervisor.step(Event::Tick).unwrap();
    assert_eq!(supervisor.step(clicked(Command::Quit)), Ok(Action::Kill(4)));
    let gone = KillError::new("access denied".to_string());
    assert_eq!(supervisor.step(Event::Killed(Err(gone))), Ok(Action::Stop));
    assert_eq!(supervisor.phase(), Phase::Stopped);
    assert_eq!(supervisor.handle(), None);
    assert_eq!(supervisor.into_error(), None);
}

#[test]
fn failed_first_launch_halts_with_the_diagnostic() {
    let mut supervisor: Supervisor<u32> = Supervisor::new(notepad());
    assert_eq!(supervisor.step(Event::Tick), Ok(Action::Launch));
    let refusal = LaunchError::new("program not found".to_string());
    assert_eq!(supervisor.step(Event::Launched(Err(refusal))), Ok(Action::Stop));
    assert_eq!(supervisor.phase(), Phase::Stopped);
    assert_eq!(supervisor.state(), SupervisorState::ShuttingDown);
    assert_eq!(supervisor.handle(), None);
    assert_eq!(supervisor.error().unwrap().message(), "program not found");
    // No launch is tried again.
    assert_eq!(supervisor.step(Event::Tick), Ok(Action::Stop));
    assert_eq!(supervisor.step(Event::Tick), Ok(Action::Stop));
    assert_eq!(
        supervisor.into_error(),
        Some(LaunchError::new("program not found".to_string()))
    );
}

#[test]
fn first_terminal_error_is_the_one_kept() {
    let mut supervisor: Supervisor<u32> = Supervisor::new(notepad());
    supervisor.step(Event::Tick).unwrap();
    let first = LaunchError::new("first".to_string());
    assert_eq!(supervisor.step(Event::Launched(Err(first))), Ok(Action::Stop));
    let second = LaunchError::new("second".to_string());
    assert_eq!(
        supervisor.step(Event::Launched(Err(second))),
        Err(Event::Launched(Err(LaunchError::new("second".to_string()))))
    );
    assert_eq!(supervisor.error().unwrap().message(), "first");
}

#[test]
fn failed_restart_launch_halts_and_leaves_the_old_process_alone() {
    let mut supervisor = running(1);
    supervisor.step(Event::Tick).unwrap();
    assert_eq!(supervisor.step(clicked(Command::Restart)), Ok(Action::Launch));
    let refusal = LaunchError::new("permission denied".to_string());
    assert_eq!(supervisor.step(Event::Launched(Err(refusal))), Ok(Action::Stop));
    assert_eq!(supervisor.phase(), Phase::Stopped);
    assert_eq!(supervisor.handle(), Some(&1));
    assert_eq!(supervisor.error().unwrap().message(), "permission denied");
}

#[test]
fn nothing_happens_after_quit() {
    let mut supervisor = running(1);
    supervisor.step(Event::Tick).unwrap();
    supervisor.step(clicked(Command::Quit)).unwrap();
    assert_eq!(supervisor.step(Event::Killed(Ok(()))), Ok(Action::Stop));
    for _ in 0..3 {
        assert_eq!(supervisor.step(Event::Tick), Ok(Action::Stop));
        assert_eq!(
            supervisor.step(clicked(Command::Restart)),
            Err(clicked(Command::Restart))
        );
        assert_eq!(
            supervisor.step(Event::Launched(Ok(7))),
            Err(Event::Launched(Ok(7)))
        );
        assert_eq!(
            supervisor.step(Event::Killed(Ok(()))),
            Err(Event::Killed(Ok(())))
        );
        assert_eq!(supervisor.phase(), Phase::Stopped);
        assert_eq!(supervisor.handle(), None);
        assert_eq!(supervisor.error(), None);
    }
}

#[test]
fn second_quit_is_not_taken() {
    let mut supervisor = running(1);
    supervisor.step(Event::Tick).unwrap();
    assert_eq!(supervisor.step(clicked(Command::Quit)), Ok(Action::Kill(1)));
    // In the same tick: only the outcome of the kill is awaited.
    assert_eq!(
        supervisor.step(clicked(Command::Quit)),
        Err(clicked(Command::Quit))
    );
    assert_eq!(supervisor.step(Event::Killed(Ok(()))), Ok(Action::Stop));
    // In a later tick: the session has stopped.
    assert_eq!(supervisor.step(Event::Tick), Ok(Action::Stop));
    assert_eq!(
        supervisor.step(clicked(Command::Quit)),
        Err(clicked(Command::Quit))
    );
    assert_eq!(supervisor.handle(), None);
    assert_eq!(supervisor.into_error(), None);
}

#[test]
fn unknown_command_is_ignored() {
    let mut supervisor = running(1);
    supervisor.step(Event::Tick).unwrap();
    assert_eq!(
        supervisor.step(Event::Polled(Some("Reload".to_string()))),
        Ok(Action::Wait)
    );
    assert_eq!(supervisor.phase(), Phase::Ready);
    assert_eq!(supervisor.handle(), Some(&1));
}

#[test]
fn command_identifiers_are_matched_exactly() {
    for id in ["restart", "Restart ", "", "Qui", "Quit\n", "RestartQuit"] {
        let mut supervisor = running(1);
        supervisor.step(Event::Tick).unwrap();
        assert_eq!(
            supervisor.step(Event::Polled(Some(id.to_string()))),
            Ok(Action::Wait)
        );
        assert_eq!(supervisor.handle(), Some(&1));
    }
}

#[test]
fn event_out_of_turn_is_handed_back_unchanged() {
    let mut supervisor: Supervisor<u32> = Supervisor::new(notepad());
    // Ready awaits a tick.
    assert_eq!(supervisor.step(Event::Launched(Ok(1))), Err(Event::Launched(Ok(1))));
    assert_eq!(supervisor.step(Event::Polled(None)), Err(Event::Polled(None)));
    assert_eq!(supervisor.step(Event::Killed(Ok(()))), Err(Event::Killed(Ok(()))));
    assert_eq!(supervisor.phase(), Phase::Ready);
    assert_eq!(supervisor.handle(), None);

    let mut supervisor = running(1);
    supervisor.step(Event::Tick).unwrap();
    // Polling awaits the answer of the command source.
    assert_eq!(supervisor.step(Event::Tick), Err(Event::Tick));
    assert_eq!(supervisor.step(Event::Launched(Ok(2))), Err(Event::Launched(Ok(2))));
    assert_eq!(supervisor.phase(), Phase::Polling);
    supervisor.step(clicked(Command::Restart)).unwrap();
    // A restart awaits the outcome of its launch, then that of its kill.
    assert_eq!(supervisor.step(Event::Killed(Ok(()))), Err(Event::Killed(Ok(()))));
    assert_eq!(supervisor.phase(), Phase::RestartLaunching);
    supervisor.step(Event::Launched(Ok(2))).unwrap();
    assert_eq!(supervisor.step(Event::Launched(Ok(3))), Err(Event::Launched(Ok(3))));
    assert_eq!(supervisor.phase(), Phase::RestartKilling);
    assert_eq!(supervisor.handle(), Some(&2));
}

#[test]
fn state_follows_the_slot_until_shutdown() {
    let mut supervisor: Supervisor<u32> = Supervisor::new(notepad());
    assert_eq!(supervisor.state(), SupervisorState::NoProcess);
    supervisor.step(Event::Tick).unwrap();
    assert_eq!(supervisor.state(), SupervisorState::NoProcess);
    supervisor.step(Event::Launched(Ok(1))).unwrap();
    assert_eq!(supervisor.state(), SupervisorState::Running);
    supervisor.step(clicked(Command::Restart)).unwrap();
    assert_eq!(supervisor.state(), SupervisorState::Running);
    supervisor.step(Event::Launched(Ok(2))).unwrap();
    assert_eq!(supervisor.state(), SupervisorState::Running);
    supervisor.step(Event::Killed(Ok(()))).unwrap();
    supervisor.step(Event::Tick).unwrap();
    supervisor.step(clicked(Command::Quit)).unwrap();
    assert_eq!(supervisor.state(), SupervisorState::ShuttingDown);
    supervisor.step(Event::Killed(Ok(()))).unwrap();
    assert_eq!(supervisor.state(), SupervisorState::ShuttingDown);
}

#[test]
fn configuration_stays_as_given_through_the_session() {
    let config = Config::new(
        "server".to_string(),
        vec!["--port".to_string(), "8080".to_string()],
        Some("server.ico".to_string()),
    )
    .unwrap();
    let mut supervisor: Supervisor<u32> = Supervisor::new(config);
    supervisor.step(Event::Tick).unwrap();
    supervisor.step(Event::Launched(Ok(1))).unwrap();
    supervisor.step(clicked(Command::Quit)).unwrap();
    supervisor.step(Event::Killed(Ok(()))).unwrap();
    assert_eq!(supervisor.config().executable(), "server");
    assert_eq!(
        supervisor.config().args(),
        &vec!["--port".to_string(), "8080".to_string()]
    );
    assert_eq!(supervisor.config().icon(), Some(&"server.ico".to_string()));
}
