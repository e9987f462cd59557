//! The main window.

use vstd::prelude::*;

verus! {

/// Sizes of the main window, in pixels.
#[derive(Debug, Clone, Copy, PartialEq, Eq, Structural)]
pub struct WindowGeometry {
    pub width: u32,
    pub height: u32,
    pub min_width: u32,
    pub min_height: u32,
}

impl WindowGeometry {
    /// The window is no smaller than it may become.
    pub open spec fn valid(self) -> bool {
        self.min_width <= self.width && self.min_height <= self.height
    }
}

/// The sizes with which the main window opens. At the lowest height the labels
/// beside the picture of a mouse do not overlap yet.
pub fn main_window_geometry() -> (geometry: WindowGeometry)
    ensures
        geometry == (WindowGeometry { width: 1100, height: 750, min_width: 720, min_height: 680 }),
        geometry.valid(),
{
    WindowGeometry { width: 1100, height: 750, min_width: 720, min_height: 680 }
}

/// The title of the main window.
pub fn main_window_title() -> (title: &'static str)
    ensures
        title@ == "OpenLogi"@,
{
    "OpenLogi"
}

/// Which window is the main one.
#[derive(Debug, Clone, Copy, PartialEq, Eq)]
pub struct WindowRegistry<H> {
    pub main: Option<H>,
}

/// How the main window comes up.
#[derive(Debug, Clone, Copy, PartialEq, Eq, Structural)]
pub enum OpenStep {
    /// It is open and has the focus; bring the program to the front.
    ActivateProgram,
    /// Open a new one.
    OpenNew,
}

/// What follows an attempt to open a window.
#[derive(Debug, Clone, Copy, PartialEq, Eq)]
pub enum OpenedStep<H> {
    /// Focus the window and bring the program to the front.
    Focus(H),
    /// Report that no window could be opened.
    Report,
}

impl<H: Copy> WindowRegistry<H> {
    /// Decides how the main window comes up. `focused` tells whether the known
    /// window still was there and took the focus.
    pub fn open_main_window(&self, focused: bool) -> (step: OpenStep)
        ensures
            step == if self.main is Some && focused {
                OpenStep::ActivateProgram
            } else {
                OpenStep::OpenNew
            },
    {
        if self.main.is_some() && focused {
            OpenStep::ActivateProgram
        } else {
            OpenStep::OpenNew
        }
    }

    /// Takes the outcome of an attempt to open a window in: a new window
    /// becomes the main one, a failure leaves the old one in place.
    pub fn on_opened(&mut self, opened: Option<H>) -> (step: OpenedStep<H>)
        ensures
            match opened {
                Some(handle) => final(self).main == Some(handle) && step == OpenedStep::Focus(
                    handle,
                ),
                None => *final(self) == *old(self) && step is Report,
            },
    {
        match opened {
            Some(handle) => {
                self.main = Some(handle);
                OpenedStep::Focus(handle)
            },
            None => OpenedStep::Report,
        }
    }
}

} // verus!
