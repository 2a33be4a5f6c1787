//! Supervision core for a single background process driven from a tray menu.
//!
//! The crate holds the decisions of the supervisor and none of its effects.
//! A host performs the effects: it starts and terminates operating-system
//! processes and polls the menu. [`Supervisor::step`] answers every outcome
//! the host reports with the next effect to perform, and
//! [`Supervisor::tick`] holds that conversation for a host whose effects are
//! three plain calls. The module [`laws`] states what follows for every
//! session.

pub mod command;
pub mod config;
pub mod error;
pub mod laws;
pub mod slot;
pub mod supervisor;
pub mod tick;

pub use command::Command;
pub use config::{Config, ConfigView};
pub use error::{KillError, LaunchError, StartupError};
pub use slot::ProcessSlot;
pub use supervisor::{Action, Event, Phase, Supervisor, SupervisorState, SupervisorView};
