//! The resolved configuration of one supervision session.

use vstd::prelude::*;
use crate::error::StartupError;

verus! {

/// What a [`Config`] holds, as plain text.
pub struct ConfigView {
    /// Path or command name of the program to keep running.
    pub executable: Seq<char>,
    /// Its arguments, in order.
    pub args: Seq<Seq<char>>,
    /// Path of the tray icon, if one was configured.
    pub icon: Option<Seq<char>>,
}

/// The program to supervise, its arguments and the icon to show.
///
/// A `Config` always names an executable: [`Config::new`] is the only way to
/// make one and refuses an empty name. It offers no way to change a field.
#[derive(Debug, PartialEq, Eq)]
pub struct Config {
    executable: String,
    args: Vec<String>,
    icon: Option<String>,
}

impl View for Config {
    type V = ConfigView;

    closed spec fn view(&self) -> ConfigView {
        ConfigView {
            executable: self.executable@,
            args: self.args.deep_view(),
            icon: self.icon.deep_view(),
        }
    }
}

impl Config {
    #[verifier::type_invariant]
    spec fn names_an_executable(self) -> bool {
        self.executable@.len() > 0
    }

    /// Checks and seals a configuration.
    ///
    /// Fails exactly when `executable` is empty; otherwise the configuration
    /// holds the three values as given.
    pub fn new(executable: String, args: Vec<String>, icon: Option<String>) -> (outcome: Result<
        Config,
        StartupError,
    >)
        ensures
            executable@.len() == 0 ==> outcome == Err::<Config, StartupError>(
                StartupError::EmptyExecutable,
            ),
            executable@.len() > 0 ==> outcome is Ok && outcome->Ok_0@ == (ConfigView {
                executable: executable@,
                args: args.deep_view(),
                icon: icon.deep_view(),
            }),
    {
        if executable.as_str().is_empty() {
            Err(StartupError::EmptyExecutable)
        } else {
            Ok(Config { executable, args, icon })
        }
    }

    /// The program to keep running; never empty.
    pub fn executable(&self) -> (text: &str)
        ensures
            text@ == self@.executable,
            text@.len() > 0,
    {
        proof {
            use_type_invariant(self);
        }
        self.executable.as_str()
    }

    /// The arguments the program is started with, in order.
    pub fn args(&self) -> (args: &Vec<String>)
        ensures
            args.deep_view() == self@.args,
    {
        &self.args
    }

    /// The path of the tray icon, if one was configured.
    pub fn icon(&self) -> (icon: Option<&String>)
        ensures
            icon.deep_view() == self@.icon,
    {
        self.icon.as_ref()
    }
}

} // verus!
