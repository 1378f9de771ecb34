//! Startup sequencing for the Séance desktop shell.
//!
//! Bringing the application up is a fixed run of steps: obtain the
//! framework's application builder, register the shell plugin, register the
//! window-state plugin, generate the runtime context, and run the
//! application. The steps themselves are carried out by the host program;
//! this library decides which step is due, and what follows from the way the
//! previous one ended.
pub mod step;
pub mod diagnostic;
pub mod launcher;
pub mod trace;

pub use diagnostic::{abort_message, failure_message};
pub use launcher::{Launcher, Stage};
pub use step::{Action, Outcome, Plugin};
