//! The launch as a state machine: from a stage and the outcome of the action
//! that was due there, to the next stage and the action due next.
use vstd::prelude::*;
use crate::step::{Action, Outcome, Plugin};

verus! {

/// How far the launch has come.
#[derive(Clone, Copy, Debug, PartialEq, Eq, Structural)]
pub enum Stage {
    /// Nothing has been done yet.
    Start,
    /// The application builder exists; no plugin is registered.
    BuilderCreated,
    /// The shell plugin is registered.
    ShellRegistered,
    /// The shell plugin and the window-state plugin are both registered.
    PluginsRegistered,
    /// The runtime context exists; the application can be run.
    ContextGenerated,
    /// The application ran and shut down normally.
    Finished,
    /// A step failed. There is no way back from here.
    Failed,
}

impl Stage {
    /// The action that is due at this stage.
    pub open spec fn due(self) -> Action {
        match self {
            Stage::Start => Action::CreateBuilder,
            Stage::BuilderCreated => Action::RegisterPlugin(Plugin::Shell),
            Stage::ShellRegistered => Action::RegisterPlugin(Plugin::WindowState),
            Stage::PluginsRegistered => Action::GenerateContext,
            Stage::ContextGenerated => Action::Run,
            Stage::Finished => Action::Return,
            Stage::Failed => Action::Abort,
        }
    }

    /// Whether the launch is over at this stage.
    pub open spec fn is_over(self) -> bool {
        self == Stage::Finished || self == Stage::Failed
    }

    /// The stage that follows this one when everything goes well.
    pub open spec fn successor(self) -> Stage {
        match self {
            Stage::Start => Stage::BuilderCreated,
            Stage::BuilderCreated => Stage::ShellRegistered,
            Stage::ShellRegistered => Stage::PluginsRegistered,
            Stage::PluginsRegistered => Stage::ContextGenerated,
            Stage::ContextGenerated => Stage::Finished,
            Stage::Finished => Stage::Finished,
            Stage::Failed => Stage::Failed,
        }
    }

    /// The stage reached from this one once the action due here has ended
    /// with `outcome`. A launch that is over stays as it is; a failure ends
    /// the launch at once; anything else moves on by one step.
    pub open spec fn after(self, outcome: Outcome) -> Stage {
        if self.is_over() {
            self
        } else if outcome == Outcome::Failed {
            Stage::Failed
        } else {
            self.successor()
        }
    }
}

/// Drives one launch of the application.
///
/// The host program asks for the action that is due, performs it, reports
/// how it ended and is handed the next one, until that is
/// [`Action::Return`] or [`Action::Abort`].
#[derive(Clone, Copy, Debug)]
pub struct Launcher {
    stage: Stage,
}

impl View for Launcher {
    type V = Stage;

    closed spec fn view(&self) -> Stage {
        self.stage
    }
}

impl Launcher {
    /// A launch of which nothing has been done yet. Every launch begins
    /// here, whatever happened in an earlier one.
    pub fn new() -> (launcher: Launcher)
        ensures
            launcher@ == Stage::Start,
    {
        Launcher { stage: Stage::Start }
    }

    /// The stage that the launch has reached.
    pub fn stage(&self) -> (stage: Stage)
        ensures
            stage == self@,
    {
        self.stage
    }

    /// The action that is due now.
    pub fn action(&self) -> (action: Action)
        ensures
            action == self@.due(),
    {
        match self.stage {
            Stage::Start => Action::CreateBuilder,
            Stage::BuilderCreated => Action::RegisterPlugin(Plugin::Shell),
            Stage::ShellRegistered => Action::RegisterPlugin(Plugin::WindowState),
            Stage::PluginsRegistered => Action::GenerateContext,
            Stage::ContextGenerated => Action::Run,
            Stage::Finished => Action::Return,
            Stage::Failed => Action::Abort,
        }
    }

    /// Whether the launch is over: the action due is then
    /// [`Action::Return`] or [`Action::Abort`], and stays so.
    pub fn is_over(&self) -> (over: bool)
        ensures
            over == self@.is_over(),
            over == self@.due().is_final(),
    {
        match self.stage {
            Stage::Finished | Stage::Failed => true,
            _ => false,
        }
    }

    /// Records that the action due has ended with `outcome`, moves to the
    /// stage that follows, and returns the action due there.
    pub fn step(&mut self, outcome: Outcome) -> (action: Action)
        ensures
            final(self)@ == old(self)@.after(outcome),
            action == final(self)@.due(),
    {
        let next = match (self.stage, outcome) {
            (Stage::Finished, _) => Stage::Finished,
            (Stage::Failed, _) => Stage::Failed,
            (_, Outcome::Failed) => Stage::Failed,
            (Stage::Start, Outcome::Done) => Stage::BuilderCreated,
            (Stage::BuilderCreated, Outcome::Done) => Stage::ShellRegistered,
            (Stage::ShellRegistered, Outcome::Done) => Stage::PluginsRegistered,
            (Stage::PluginsRegistered, Outcome::Done) => Stage::ContextGenerated,
            (Stage::ContextGenerated, Outcome::Done) => Stage::Finished,
        };
        self.stage = next;
        self.action()
    }
}

} // verus!
