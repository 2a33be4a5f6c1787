use tray_supervisor::{Command, Config, KillError, LaunchError, ProcessSlot, StartupError};

#[test]
fn config_keeps_what_it_was_given() {
    let config = Config::new("notepad.exe".to_string(), vec![], None).unwrap();
    assert_eq!(config.executable(), "notepad.exe");
    assert!(config.args().is_empty());
    assert_eq!(config.icon(), None);
}

#[test]
fn config_keeps_arguments_in_order() {
    let args = vec!["-a".to_string(), "".to_string(), "b c".to_string()];
    let config = Config::new("tool".to_string(), args.clone(), Some("tool.png".to_string()))
        .unwrap();
    assert_eq!(config.executable(), "tool");
    assert_eq!(config.args(), &args);
    assert_eq!(config.icon(), Some(&"tool.png".to_string()));
}

#[test]
fn config_without_executable_is_a_startup_error() {
    assert_eq!(
        Config::new(String::new(), vec![], None),
        Err(StartupError::EmptyExecutable)
    );
    assert_eq!(
        Config::new(
            String::new(),
            vec!["--flag".to_string()],
            Some("icon.ico".to_string())
        ),
        Err(StartupError::EmptyExecutable)
    );
}

#[test]
fn config_accepts_any_non_empty_executable() {
    for name in [" ", "a", "C:\\Program Files\\x.exe", "\u{e9}"] {
        let config = Config::new(name.to_string(), vec![], None).unwrap();
        assert_eq!(config.executable(), name);
    }
}

#[test]
fn startup_error_has_a_message() {
    assert_eq!(
        StartupError::EmptyExecutable.message(),
        "configuration names no executable"
    );
}

#[test]
fn launch_and_kill_errors_carry_the_diagnostic() {
    let launch = LaunchError::new("The system cannot find the file specified.".to_string());
    assert_eq!(launch.message(), "The system cannot find the file specified.");
    let kill = KillError::new("invalid argument".to_string());
    assert_eq!(kill.message(), "invalid argument");
    assert_eq!(LaunchError::new(String::new()).message(), "");
}

#[test]
fn command_identifiers() {
    assert_eq!(Command::Restart.id(), "Restart");
    assert_eq!(Command::Quit.id(), "Quit");
}

#[test]
fn command_from_identifier() {
    assert_eq!(Command::from_id("Restart"), Some(Command::Restart));
    assert_eq!(Command::from_id("Quit"), Some(Command::Quit));
    assert_eq!(Command::from_id(""), None);
    assert_eq!(Command::from_id("quit"), None);
    assert_eq!(Command::from_id("Restar"), None);
    assert_eq!(Command::from_id("Restart!"), None);
    assert_eq!(Command::from_id("Qu\u{ef}t"), None);
    assert_eq!(Command::from_id("Open"), None);
}

#[test]
fn command_identifier_round_trip() {
    for command in [Command::Restart, Command::Quit] {
        assert_eq!(Command::from_id(command.id()), Some(command));
    }
}

#[test]
fn menu_lists_restart_above_quit() {
    assert_eq!(Command::menu(), vec![Command::Restart, Command::Quit]);
}

#[test]
fn new_slot_is_empty() {
    let slot: ProcessSlot<u32> = ProcessSlot::new();
    assert!(!slot.is_present());
    assert_eq!(slot.handle(), None);
}

#[test]
fn replace_on_empty_slot_gives_nothing_to_kill() {
    let mut slot = ProcessSlot::new();
    assert_eq!(slot.replace(1), None);
    assert!(slot.is_present());
    assert_eq!(slot.handle(), Some(&1));
}

#[test]
fn replace_hands_back_the_previous_handle() {
    let mut slot = ProcessSlot::new();
    slot.replace("old");
    assert_eq!(slot.replace("new"), Some("old"));
    assert_eq!(slot.handle(), Some(&"new"));
    assert!(slot.is_present());
}

#[test]
fn take_empties_the_slot() {
    let mut slot = ProcessSlot::new();
    slot.replace(7);
    assert_eq!(slot.take(), Some(7));
    assert!(!slot.is_present());
    assert_eq!(slot.take(), None);
    assert!(!slot.is_present());
}

#[test]
fn take_on_empty_slot_gives_nothing_to_kill() {
    let mut slot: ProcessSlot<u32> = ProcessSlot::new();
    assert_eq!(slot.take(), None);
    assert_eq!(slot.handle(), None);
}
