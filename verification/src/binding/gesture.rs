//! Directions of a gesture.

use crate::table::Key;
use vstd::prelude::*;

verus! {

/// One way to move, or to press without moving, while a gesture button is held.
#[derive(Debug, Clone, Copy, PartialEq, Eq, PartialOrd, Ord, Hash, Structural)]
pub enum GestureDirection {
    Up,
    Down,
    Left,
    Right,
    /// Pressed and released without a movement.
    Click,
}

impl View for GestureDirection {
    type V = GestureDirection;

    open spec fn view(&self) -> GestureDirection {
        *self
    }
}

impl Key for GestureDirection {
    fn same(&self, other: &GestureDirection) -> (same: bool) {
        *self == *other
    }

    fn copied(&self) -> (direction: GestureDirection) {
        *self
    }
}

impl GestureDirection {
    /// Every direction, once.
    pub open spec fn every() -> Seq<GestureDirection> {
        seq![
            GestureDirection::Up,
            GestureDirection::Down,
            GestureDirection::Left,
            GestureDirection::Right,
            GestureDirection::Click,
        ]
    }

    /// Every direction, once.
    pub fn all() -> (directions: Vec<GestureDirection>)
        ensures
            directions@ == Self::every(),
    {
        let directions: Vec<GestureDirection> = vec![
            GestureDirection::Up,
            GestureDirection::Down,
            GestureDirection::Left,
            GestureDirection::Right,
            GestureDirection::Click,
        ];
        assert(directions@ =~= Self::every());
        directions
    }

    /// Where a direction stands in [`Self::every`].
    pub open spec fn place(self) -> int {
        match self {
            GestureDirection::Up => 0,
            GestureDirection::Down => 1,
            GestureDirection::Left => 2,
            GestureDirection::Right => 3,
            GestureDirection::Click => 4,
        }
    }

    /// `every` leaves no direction out.
    pub proof fn every_is_complete(self)
        ensures
            0 <= self.place() < Self::every().len(),
            Self::every()[self.place()] == self,
    {
    }
}

} // verus!
