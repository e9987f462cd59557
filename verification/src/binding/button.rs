//! Controls that can be bound.

use crate::table::Key;
use crate::text::same_text;
use vstd::prelude::*;

verus! {

/// A control of a mouse or of a keyboard.
#[derive(Debug, Clone, Copy, PartialEq, Eq, PartialOrd, Ord, Hash, Structural)]
pub enum ButtonId {
    /// Primary button.
    LeftClick,
    /// Secondary button.
    RightClick,
    /// Press of the main wheel.
    MiddleClick,
    /// Rear side button.
    Back,
    /// Front side button.
    Forward,
    /// Button behind the main wheel.
    DpiToggle,
    /// Press of the thumb wheel.
    Thumbwheel,
    /// Thumb wheel turned forward.
    ThumbwheelScrollUp,
    /// Thumb wheel turned backward.
    ThumbwheelScrollDown,
    /// Dedicated gesture button.
    GestureButton,
    /// Touch panel under the thumb.
    HapticPanel,
    KeySearch,
    KeyDictation,
    KeyEmoji,
    KeyScreenCapture,
    KeyMicMute,
    KeyPlayPause,
    KeyMute,
    KeyVolumeDown,
    KeyVolumeUp,
}

impl View for ButtonId {
    type V = ButtonId;

    open spec fn view(&self) -> ButtonId {
        *self
    }
}

impl Key for ButtonId {
    fn same(&self, other: &ButtonId) -> (same: bool) {
        *self == *other
    }

    fn copied(&self) -> (button: ButtonId) {
        *self
    }
}

impl ButtonId {
    /// Every control, once.
    pub open spec fn every() -> Seq<ButtonId> {
        seq![
            ButtonId::LeftClick,
            ButtonId::RightClick,
            ButtonId::MiddleClick,
            ButtonId::Back,
            ButtonId::Forward,
            ButtonId::DpiToggle,
            ButtonId::Thumbwheel,
            ButtonId::ThumbwheelScrollUp,
            ButtonId::ThumbwheelScrollDown,
            ButtonId::GestureButton,
            ButtonId::HapticPanel,
            ButtonId::KeySearch,
            ButtonId::KeyDictation,
            ButtonId::KeyEmoji,
            ButtonId::KeyScreenCapture,
            ButtonId::KeyMicMute,
            ButtonId::KeyPlayPause,
            ButtonId::KeyMute,
            ButtonId::KeyVolumeDown,
            ButtonId::KeyVolumeUp,
        ]
    }

    /// Every control, once.
    pub fn all() -> (buttons: Vec<ButtonId>)
        ensures
            buttons@ == Self::every(),
    {
        let buttons: Vec<ButtonId> = vec![
            ButtonId::LeftClick,
            ButtonId::RightClick,
            ButtonId::MiddleClick,
            ButtonId::Back,
            ButtonId::Forward,
            ButtonId::DpiToggle,
            ButtonId::Thumbwheel,
            ButtonId::ThumbwheelScrollUp,
            ButtonId::ThumbwheelScrollDown,
            ButtonId::GestureButton,
            ButtonId::HapticPanel,
            ButtonId::KeySearch,
            ButtonId::KeyDictation,
            ButtonId::KeyEmoji,
            ButtonId::KeyScreenCapture,
            ButtonId::KeyMicMute,
            ButtonId::KeyPlayPause,
            ButtonId::KeyMute,
            ButtonId::KeyVolumeDown,
            ButtonId::KeyVolumeUp,
        ];
        assert(buttons@ =~= Self::every());
        buttons
    }

    /// Where a control stands in [`Self::every`].
    pub open spec fn place(self) -> int {
        match self {
            ButtonId::LeftClick => 0,
            ButtonId::RightClick => 1,
            ButtonId::MiddleClick => 2,
            ButtonId::Back => 3,
            ButtonId::Forward => 4,
            ButtonId::DpiToggle => 5,
            ButtonId::Thumbwheel => 6,
            ButtonId::ThumbwheelScrollUp => 7,
            ButtonId::ThumbwheelScrollDown => 8,
            ButtonId::GestureButton => 9,
            ButtonId::HapticPanel => 10,
            ButtonId::KeySearch => 11,
            ButtonId::KeyDictation => 12,
            ButtonId::KeyEmoji => 13,
            ButtonId::KeyScreenCapture => 14,
            ButtonId::KeyMicMute => 15,
            ButtonId::KeyPlayPause => 16,
            ButtonId::KeyMute => 17,
            ButtonId::KeyVolumeDown => 18,
            ButtonId::KeyVolumeUp => 19,
        }
    }

    /// `every` leaves no control out and names none twice.
    pub proof fn every_is_complete(self)
        ensures
            0 <= self.place() < Self::every().len(),
            Self::every()[self.place()] == self,
            forall|i: int|
                0 <= i < Self::every().len() ==> (#[trigger] Self::every()[i]).place() == i,
    {
    }

    /// The name of a control in a configuration file.
    pub open spec fn name_model(self) -> Seq<char> {
        match self {
            ButtonId::LeftClick => "LeftClick"@,
            ButtonId::RightClick => "RightClick"@,
            ButtonId::MiddleClick => "MiddleClick"@,
            ButtonId::Back => "Back"@,
            ButtonId::Forward => "Forward"@,
            ButtonId::DpiToggle => "DpiToggle"@,
            ButtonId::Thumbwheel => "Thumbwheel"@,
            ButtonId::ThumbwheelScrollUp => "ThumbwheelScrollUp"@,
            ButtonId::ThumbwheelScrollDown => "ThumbwheelScrollDown"@,
            ButtonId::GestureButton => "GestureButton"@,
            ButtonId::HapticPanel => "HapticPanel"@,
            ButtonId::KeySearch => "KeySearch"@,
            ButtonId::KeyDictation => "KeyDictation"@,
            ButtonId::KeyEmoji => "KeyEmoji"@,
            ButtonId::KeyScreenCapture => "KeyScreenCapture"@,
            ButtonId::KeyMicMute => "KeyMicMute"@,
            ButtonId::KeyPlayPause => "KeyPlayPause"@,
            ButtonId::KeyMute => "KeyMute"@,
            ButtonId::KeyVolumeDown => "KeyVolumeDown"@,
            ButtonId::KeyVolumeUp => "KeyVolumeUp"@,
        }
    }

    /// The name of a control in a configuration file.
    pub fn name(self) -> (name: &'static str)
        ensures
            name@ == self.name_model(),
    {
        match self {
            ButtonId::LeftClick => "LeftClick",
            ButtonId::RightClick => "RightClick",
            ButtonId::MiddleClick => "MiddleClick",
            ButtonId::Back => "Back",
            ButtonId::Forward => "Forward",
            ButtonId::DpiToggle => "DpiToggle",
            ButtonId::Thumbwheel => "Thumbwheel",
            ButtonId::ThumbwheelScrollUp => "ThumbwheelScrollUp",
            ButtonId::ThumbwheelScrollDown => "ThumbwheelScrollDown",
            ButtonId::GestureButton => "GestureButton",
            ButtonId::HapticPanel => "HapticPanel",
            ButtonId::KeySearch => "KeySearch",
            ButtonId::KeyDictation => "KeyDictation",
            ButtonId::KeyEmoji => "KeyEmoji",
            ButtonId::KeyScreenCapture => "KeyScreenCapture",
            ButtonId::KeyMicMute => "KeyMicMute",
            ButtonId::KeyPlayPause => "KeyPlayPause",
            ButtonId::KeyMute => "KeyMute",
            ButtonId::KeyVolumeDown => "KeyVolumeDown",
            ButtonId::KeyVolumeUp => "KeyVolumeUp",
        }
    }

    /// Length, first and fourth character of a name, which tell the names apart.
    spec fn name_marks(self) -> (nat, char, char) {
        match self {
            ButtonId::LeftClick => (9, 'L', 't'),
            ButtonId::RightClick => (10, 'R', 'h'),
            ButtonId::MiddleClick => (11, 'M', 'd'),
            ButtonId::Back => (4, 'B', 'k'),
            ButtonId::Forward => (7, 'F', 'w'),
            ButtonId::DpiToggle => (9, 'D', 'T'),
            ButtonId::Thumbwheel => (10, 'T', 'm'),
            ButtonId::ThumbwheelScrollUp => (18, 'T', 'm'),
            ButtonId::ThumbwheelScrollDown => (20, 'T', 'm'),
            ButtonId::GestureButton => (13, 'G', 't'),
            ButtonId::HapticPanel => (11, 'H', 't'),
            ButtonId::KeySearch => (9, 'K', 'S'),
            ButtonId::KeyDictation => (12, 'K', 'D'),
            ButtonId::KeyEmoji => (8, 'K', 'E'),
            ButtonId::KeyScreenCapture => (16, 'K', 'S'),
            ButtonId::KeyMicMute => (10, 'K', 'M'),
            ButtonId::KeyPlayPause => (12, 'K', 'P'),
            ButtonId::KeyMute => (7, 'K', 'M'),
            ButtonId::KeyVolumeDown => (13, 'K', 'V'),
            ButtonId::KeyVolumeUp => (11, 'K', 'V'),
        }
    }

    proof fn name_has_marks(self)
        ensures
            self.name_marks() == (
                self.name_model().len(),
                self.name_model()[0],
                self.name_model()[3],
            ),
    {
        match self {
            ButtonId::LeftClick => reveal_strlit("LeftClick"),
            ButtonId::RightClick => reveal_strlit("RightClick"),
            ButtonId::MiddleClick => reveal_strlit("MiddleClick"),
            ButtonId::Back => reveal_strlit("Back"),
            ButtonId::Forward => reveal_strlit("Forward"),
            ButtonId::DpiToggle => reveal_strlit("DpiToggle"),
            ButtonId::Thumbwheel => reveal_strlit("Thumbwheel"),
            ButtonId::ThumbwheelScrollUp => reveal_strlit("ThumbwheelScrollUp"),
            ButtonId::ThumbwheelScrollDown => reveal_strlit("ThumbwheelScrollDown"),
            ButtonId::GestureButton => reveal_strlit("GestureButton"),
            ButtonId::HapticPanel => reveal_strlit("HapticPanel"),
            ButtonId::KeySearch => reveal_strlit("KeySearch"),
            ButtonId::KeyDictation => reveal_strlit("KeyDictation"),
            ButtonId::KeyEmoji => reveal_strlit("KeyEmoji"),
            ButtonId::KeyScreenCapture => reveal_strlit("KeyScreenCapture"),
            ButtonId::KeyMicMute => reveal_strlit("KeyMicMute"),
            ButtonId::KeyPlayPause => reveal_strlit("KeyPlayPause"),
            ButtonId::KeyMute => reveal_strlit("KeyMute"),
            ButtonId::KeyVolumeDown => reveal_strlit("KeyVolumeDown"),
            ButtonId::KeyVolumeUp => reveal_strlit("KeyVolumeUp"),
        }
    }

    /// Every name has at least four characters.
    pub proof fn name_is_long(self)
        ensures
            self.name_model().len() >= 4,
    {
        self.name_has_marks();
    }

    /// No two controls have the same name.
    pub proof fn names_are_distinct(a: ButtonId, b: ButtonId)
        requires
            a.name_model() == b.name_model(),
        ensures
            a == b,
    {
        a.name_has_marks();
        b.name_has_marks();
    }

    /// The control with the given name; none for a name that no control has.
    pub fn from_name(name: &str) -> (button: Option<ButtonId>)
        ensures
            match button {
                Some(b) => b.name_model() == name@,
                None => forall|b: ButtonId| #[trigger] b.name_model() != name@,
            },
    {
        let buttons: Vec<ButtonId> = Self::all();
        let mut i: usize = 0;
        while i < buttons.len()
            invariant
                i <= buttons@.len(),
                buttons@ == Self::every(),
                forall|j: int| 0 <= j < i ==> (#[trigger] buttons@[j]).name_model() != name@,
            decreases buttons@.len() - i,
        {
            if same_text(buttons[i].name(), name) {
                return Some(buttons[i]);
            }
            i += 1;
        }
        assert forall|b: ButtonId| #[trigger] b.name_model() != name@ by {
            b.every_is_complete();
            assert(buttons@[b.place()] == b);
        }
        None
    }
}

} // verus!
