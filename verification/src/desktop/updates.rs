//! Messages from the agent.

use crate::desktop::agent::AgentLink;
#[allow(unused_imports)]
use crate::desktop::agent::LinkModel;
use vstd::prelude::*;

verus! {

/// What kind of message came.
#[derive(Debug, Clone, Copy, PartialEq, Eq, Structural)]
pub enum UpdateKind {
    /// The agent's full report.
    Snapshot,
    /// The agent does not answer.
    Unreachable,
    /// The agent speaks a newer protocol than this program.
    OutdatedGui,
    /// The answer to a command for a light.
    LightCommandResult,
    /// A command for pairing could not be delivered.
    PairingUndeliverable,
    /// The answer to a request to read the configuration again.
    ConfigReloadResult,
    /// No message will come any more.
    Closed,
}

/// Where the connection to the agent stands, apart from its reports.
#[derive(Debug, Clone, Copy, PartialEq, Eq, Structural)]
pub enum LinkDown {
    Unreachable,
    OutdatedGui,
}

impl LinkDown {
    /// The link that it stands for.
    pub fn link(self) -> (link: AgentLink)
        ensures
            link@ == match self {
                LinkDown::Unreachable => LinkModel::Unreachable,
                LinkDown::OutdatedGui => LinkModel::OutdatedGui,
            },
    {
        match self {
            LinkDown::Unreachable => AgentLink::Unreachable,
            LinkDown::OutdatedGui => AgentLink::OutdatedGui,
        }
    }
}

/// What a message asks for.
#[derive(Debug, Clone, Copy, PartialEq, Eq, Structural)]
pub enum UpdateStep {
    ApplySnapshot,
    SetLink(LinkDown),
    ApplyLightResult,
    ApplyPairingFailure,
    ApplyReloadResult,
}

/// The stream of messages.
#[derive(Debug, Clone, Copy, PartialEq, Eq, Structural)]
pub struct UpdateFeed {
    /// More messages may come.
    pub open: bool,
}

/// What a message asks for.
pub open spec fn step_model(kind: UpdateKind) -> UpdateStep {
    match kind {
        UpdateKind::Snapshot => UpdateStep::ApplySnapshot,
        UpdateKind::Unreachable => UpdateStep::SetLink(LinkDown::Unreachable),
        UpdateKind::OutdatedGui => UpdateStep::SetLink(LinkDown::OutdatedGui),
        UpdateKind::LightCommandResult => UpdateStep::ApplyLightResult,
        UpdateKind::PairingUndeliverable => UpdateStep::ApplyPairingFailure,
        UpdateKind::ConfigReloadResult => UpdateStep::ApplyReloadResult,
        UpdateKind::Closed => UpdateStep::SetLink(LinkDown::Unreachable),
    }
}

impl UpdateFeed {
    /// Takes a message in. The end of the stream counts as an agent that does
    /// not answer, and the stream is not read again.
    pub fn on_update(&mut self, kind: UpdateKind) -> (step: UpdateStep)
        ensures
            step == step_model(kind),
            final(self).open == (old(self).open && kind != UpdateKind::Closed),
    {
        match kind {
            UpdateKind::Snapshot => UpdateStep::ApplySnapshot,
            UpdateKind::Unreachable => UpdateStep::SetLink(LinkDown::Unreachable),
            UpdateKind::OutdatedGui => UpdateStep::SetLink(LinkDown::OutdatedGui),
            UpdateKind::LightCommandResult => UpdateStep::ApplyLightResult,
            UpdateKind::PairingUndeliverable => UpdateStep::ApplyPairingFailure,
            UpdateKind::ConfigReloadResult => UpdateStep::ApplyReloadResult,
            UpdateKind::Closed => {
                self.open = false;
                UpdateStep::SetLink(LinkDown::Unreachable)
            },
        }
    }
}

/// Whether the windows are redrawn after a step: always after a failed pairing,
/// and otherwise where the step changed something. A report decides for itself.
pub fn refreshes_windows(step: UpdateStep, changed: bool) -> (refreshes: bool)
    ensures
        refreshes == match step {
            UpdateStep::ApplySnapshot => false,
            UpdateStep::ApplyPairingFailure => true,
            _ => changed,
        },
{
    match step {
        UpdateStep::ApplySnapshot => false,
        UpdateStep::ApplyPairingFailure => true,
        UpdateStep::SetLink(_) => changed,
        UpdateStep::ApplyLightResult => changed,
        UpdateStep::ApplyReloadResult => changed,
    }
}

} // verus!
