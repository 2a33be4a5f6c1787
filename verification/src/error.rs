//! What can go wrong, by the moment at which it does.
//!
//! A [`StartupError`] ends the session before the first tick. A
//! [`LaunchError`] ends a running session. A [`KillError`] ends nothing: the
//! usual cause is a process that had already exited.

use vstd::prelude::*;

verus! {

/// A configuration that cannot be supervised.
#[derive(Clone, Copy, Debug, PartialEq, Eq, Structural)]
pub enum StartupError {
    /// The configuration names no executable.
    EmptyExecutable,
}

impl StartupError {
    /// The text of [`StartupError::message`].
    pub open spec fn spec_message(self) -> Seq<char> {
        match self {
            StartupError::EmptyExecutable => "configuration names no executable"@,
        }
    }

    /// A line for the user.
    pub fn message(&self) -> (text: String)
        ensures
            text@ == self.spec_message(),
    {
        match self {
            StartupError::EmptyExecutable => "configuration names no executable".to_owned(),
        }
    }
}

/// The operating system refused to start the supervised process.
///
/// Its view is the diagnostic that came with the refusal.
#[derive(Debug, PartialEq, Eq)]
pub struct LaunchError {
    diagnostic: String,
}

impl View for LaunchError {
    type V = Seq<char>;

    closed spec fn view(&self) -> Seq<char> {
        self.diagnostic@
    }
}

impl LaunchError {
    /// Wraps the operating system's diagnostic.
    pub fn new(diagnostic: String) -> (error: Self)
        ensures
            error@ == diagnostic@,
    {
        LaunchError { diagnostic }
    }

    /// The operating system's diagnostic, as it was given to [`LaunchError::new`].
    pub fn message(&self) -> (text: &str)
        ensures
            text@ == self@,
    {
        self.diagnostic.as_str()
    }
}

/// The operating system could not terminate a process, most often because
/// the process was gone already.
///
/// Its view is the diagnostic that came with the failure.
#[derive(Debug, PartialEq, Eq)]
pub struct KillError {
    diagnostic: String,
}

impl View for KillError {
    type V = Seq<char>;

    closed spec fn view(&self) -> Seq<char> {
        self.diagnostic@
    }
}

impl KillError {
    /// Wraps the operating system's diagnostic.
    pub fn new(diagnostic: String) -> (error: Self)
        ensures
            error@ == diagnostic@,
    {
        KillError { diagnostic }
    }

    /// The operating system's diagnostic, as it was given to [`KillError::new`].
    pub fn message(&self) -> (text: &str)
        ensures
            text@ == self@,
    {
        self.diagnostic.as_str()
    }
}

} // verus!
