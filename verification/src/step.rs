//! What the host program is asked to do, and how it answers.
use vstd::prelude::*;

verus! {

/// A framework plugin that the application registers before it runs.
#[derive(Clone, Copy, Debug, PartialEq, Eq, Structural)]
pub enum Plugin {
    /// Lets the front end invoke commands of the operating system's shell.
    Shell,
    /// Saves and restores the position and size of the windows.
    WindowState,
}

/// One thing for the host program to do.
#[derive(Clone, Copy, Debug, PartialEq, Eq, Structural)]
pub enum Action {
    /// Obtain the framework's default application builder.
    CreateBuilder,
    /// Register the plugin, in its default configuration, with the builder.
    RegisterPlugin(Plugin),
    /// Generate the runtime context from the packaged configuration.
    GenerateContext,
    /// Run the application with the builder and the context; this blocks in
    /// the event loop until the framework shuts down.
    Run,
    /// The application has shut down normally: return to the caller.
    Return,
    /// The launch has failed: end the process with the diagnostic.
    Abort,
}

/// How the host program's attempt at an action ended.
#[derive(Clone, Copy, Debug, PartialEq, Eq, Structural)]
pub enum Outcome {
    /// The action was carried out.
    Done,
    /// The action reported a failure.
    Failed,
}

impl Action {
    /// Whether the action ends the launch, so that nothing is done after it.
    pub open spec fn is_final(self) -> bool {
        self == Action::Return || self == Action::Abort
    }
}

} // verus!
