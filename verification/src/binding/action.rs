//! Actions that a control can trigger.

use crate::table::Value;
use vstd::prelude::*;

verus! {

/// What happens when a bound control fires.
#[derive(Debug, PartialEq, Eq)]
pub enum Action {
    /// Nothing happens.
    Nothing,
    /// Left mouse button.
    LeftClick,
    /// Right mouse button.
    RightClick,
    /// Middle mouse button.
    MiddleClick,
    /// Back in the browser history.
    BrowserBack,
    /// Forward in the browser history.
    BrowserForward,
    /// Step to the next stored pointer resolution.
    CycleDpiPresets,
    /// Scroll left.
    HorizontalScrollLeft,
    /// Scroll right.
    HorizontalScrollRight,
    /// Overview of all windows and spaces.
    MissionControl,
    /// Move every window out of the way.
    ShowDesktop,
    /// Overview of the windows of one application.
    AppExpose,
    /// Previous tab.
    PrevTab,
    /// Next tab.
    NextTab,
    /// Open the ring of actions.
    ShowActionsRing,
    /// Any other action, by the name it has in the configuration.
    Named(String),
}

impl View for Action {
    type V = Action;

    open spec fn view(&self) -> Action {
        *self
    }
}

impl Clone for Action {
    fn clone(&self) -> (action: Action)
        ensures
            action == *self,
    {
        match self {
            Action::Nothing => Action::Nothing,
            Action::LeftClick => Action::LeftClick,
            Action::RightClick => Action::RightClick,
            Action::MiddleClick => Action::MiddleClick,
            Action::BrowserBack => Action::BrowserBack,
            Action::BrowserForward => Action::BrowserForward,
            Action::CycleDpiPresets => Action::CycleDpiPresets,
            Action::HorizontalScrollLeft => Action::HorizontalScrollLeft,
            Action::HorizontalScrollRight => Action::HorizontalScrollRight,
            Action::MissionControl => Action::MissionControl,
            Action::ShowDesktop => Action::ShowDesktop,
            Action::AppExpose => Action::AppExpose,
            Action::PrevTab => Action::PrevTab,
            Action::NextTab => Action::NextTab,
            Action::ShowActionsRing => Action::ShowActionsRing,
            Action::Named(name) => Action::Named(name.clone()),
        }
    }
}

impl Value for Action {
    fn copied(&self) -> (action: Action) {
        self.clone()
    }
}

} // verus!
