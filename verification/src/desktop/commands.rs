//! Commands that reach the program from outside.

use crate::config::settings::AppSettings;
use vstd::prelude::*;

verus! {

/// A command from the tray or from a link.
#[derive(Debug, Clone, Copy, PartialEq, Eq, Structural)]
pub enum DeeplinkCommand {
    Quit,
    /// Bring the main window up.
    Show,
    OpenSettings,
    OpenAbout,
    CheckForUpdates,
}

/// One thing for the program to do.
#[derive(Debug, Clone, Copy, PartialEq, Eq, Structural)]
pub enum GuiStep {
    Quit,
    /// Open the main window, or focus the one that is open.
    OpenMainWindow,
    OpenSettings,
    /// Open the settings at the page about the program.
    OpenAbout,
    CheckForUpdates,
}

/// The main window comes up where no window is open.
pub open spec fn anchor_model(no_window: bool) -> Seq<GuiStep> {
    if no_window {
        seq![GuiStep::OpenMainWindow]
    } else {
        Seq::empty()
    }
}

/// What a command asks for.
pub open spec fn steps_model(command: DeeplinkCommand, no_window: bool) -> Seq<GuiStep> {
    match command {
        DeeplinkCommand::Quit => seq![GuiStep::Quit],
        DeeplinkCommand::Show => seq![GuiStep::OpenMainWindow],
        DeeplinkCommand::OpenSettings => anchor_model(no_window).push(GuiStep::OpenSettings),
        DeeplinkCommand::OpenAbout => anchor_model(no_window).push(GuiStep::OpenAbout),
        DeeplinkCommand::CheckForUpdates => anchor_model(no_window).push(GuiStep::CheckForUpdates),
    }
}

/// The main window as the anchor of the session, where no window is open: a
/// side window that is closed later must not leave the program without one.
pub fn ensure_main_window(no_window: bool) -> (steps: Vec<GuiStep>)
    ensures
        steps@ == anchor_model(no_window),
{
    let mut steps: Vec<GuiStep> = Vec::new();
    if no_window {
        steps.push(GuiStep::OpenMainWindow);
    }
    assert(steps@ =~= anchor_model(no_window));
    steps
}

/// What a command asks for, in order.
pub fn dispatch_gui_command(command: DeeplinkCommand, no_window: bool) -> (steps: Vec<GuiStep>)
    ensures
        steps@ == steps_model(command, no_window),
{
    match command {
        DeeplinkCommand::Quit => {
            let mut steps: Vec<GuiStep> = Vec::new();
            steps.push(GuiStep::Quit);
            assert(steps@ =~= seq![GuiStep::Quit]);
            steps
        },
        DeeplinkCommand::Show => {
            let mut steps: Vec<GuiStep> = Vec::new();
            steps.push(GuiStep::OpenMainWindow);
            assert(steps@ =~= seq![GuiStep::OpenMainWindow]);
            steps
        },
        DeeplinkCommand::OpenSettings => {
            let mut steps: Vec<GuiStep> = ensure_main_window(no_window);
            steps.push(GuiStep::OpenSettings);
            steps
        },
        DeeplinkCommand::OpenAbout => {
            let mut steps: Vec<GuiStep> = ensure_main_window(no_window);
            steps.push(GuiStep::OpenAbout);
            steps
        },
        DeeplinkCommand::CheckForUpdates => {
            let mut steps: Vec<GuiStep> = ensure_main_window(no_window);
            steps.push(GuiStep::CheckForUpdates);
            steps
        },
    }
}

/// After any command but `Quit` a main window has been asked for, unless a
/// window was open already, and nothing comes before it.
pub proof fn main_window_comes_first(command: DeeplinkCommand, no_window: bool)
    requires
        command != DeeplinkCommand::Quit,
        no_window,
    ensures
        steps_model(command, no_window)[0] == GuiStep::OpenMainWindow,
{
}

/// Whether the program quits after a window was closed: with the last one.
pub fn quits_after_close(no_window: bool) -> (quits: bool)
    ensures
        quits == no_window,
{
    no_window
}

/// Whether to ask, at the first start, if updates may be looked for. Without
/// preferences there is nothing to ask for.
pub fn asks_for_update_consent(settings: Option<&AppSettings>) -> (asks: bool)
    ensures
        asks == (settings matches Some(s) && !s.update_prompt_seen),
{
    match settings {
        Some(settings) => !settings.update_prompt_seen,
        None => false,
    }
}

} // verus!
