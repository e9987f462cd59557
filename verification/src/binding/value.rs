//! Bindings: what one control is set to do.

use crate::binding::action::Action;
use crate::binding::defaults::default_gesture_map;
#[allow(unused_imports)]
use crate::binding::defaults::default_gesture_map_model;
use crate::binding::gesture::GestureDirection;
use crate::table::{Table, Value};
use vstd::prelude::*;

verus! {

/// One action per gesture direction; directions may be missing.
pub type GestureMap = Table<GestureDirection, Action>;

/// What a control is set to do.
#[derive(Debug)]
pub enum Binding {
    /// Every press triggers one action.
    Single(Action),
    /// The movement while the control is held picks the action.
    Gesture(GestureMap),
}

/// A [`Binding`] as a mathematical value.
pub ghost enum BindingModel {
    Single(Action),
    Gesture(Map<GestureDirection, Action>),
}

impl BindingModel {
    /// What a plain press triggers: the one action, or the `Click` direction
    /// of a gesture, or nothing where a gesture has no such direction.
    pub open spec fn press(self) -> Action {
        match self {
            BindingModel::Single(action) => action,
            BindingModel::Gesture(map) => if map.contains_key(GestureDirection::Click) {
                map[GestureDirection::Click]
            } else {
                Action::Nothing
            },
        }
    }

    /// The gesture map that the control has in gesture mode: its own, or for a
    /// single action every default direction, with that action kept as `Click`.
    pub open spec fn gesture_map(self) -> Map<GestureDirection, Action> {
        match self {
            BindingModel::Single(action) => default_gesture_map_model().insert(
                GestureDirection::Click,
                action,
            ),
            BindingModel::Gesture(map) => map,
        }
    }

    /// The binding in gesture mode, or out of it with the plain press kept.
    pub open spec fn switched(self, gesture: bool) -> BindingModel {
        if gesture {
            BindingModel::Gesture(self.gesture_map())
        } else {
            BindingModel::Single(self.press())
        }
    }

    /// Switching the mode keeps what a plain press triggers.
    pub proof fn switching_keeps_the_press(self, gesture: bool)
        requires
            self is Gesture ==> self->Gesture_0.contains_key(GestureDirection::Click),
        ensures
            self.switched(gesture).press() == self.press(),
    {
    }
}

impl View for Binding {
    type V = BindingModel;

    open spec fn view(&self) -> BindingModel {
        match self {
            Binding::Single(action) => BindingModel::Single(*action),
            Binding::Gesture(map) => BindingModel::Gesture(map@),
        }
    }
}

impl Value for Binding {
    fn copied(&self) -> (binding: Binding) {
        match self {
            Binding::Single(action) => Binding::Single(action.clone()),
            Binding::Gesture(map) => Binding::Gesture(map.copied()),
        }
    }
}

impl Binding {
    /// Whether the movement picks the action.
    pub fn is_gesture(&self) -> (gesture: bool)
        ensures
            gesture == (self@ is Gesture),
    {
        match self {
            Binding::Single(_) => false,
            Binding::Gesture(_) => true,
        }
    }

    /// The gesture map that the control has in gesture mode.
    pub fn into_gesture_map(self) -> (map: GestureMap)
        ensures
            map@ == self@.gesture_map(),
    {
        match self {
            Binding::Single(action) => {
                let mut map: GestureMap = default_gesture_map();
                map.insert(GestureDirection::Click, action);
                map
            },
            Binding::Gesture(map) => map,
        }
    }

    /// The binding in gesture mode, or out of it with the plain press kept.
    pub fn switched(self, gesture: bool) -> (binding: Binding)
        ensures
            binding@ == self@.switched(gesture),
    {
        if gesture {
            Binding::Gesture(self.into_gesture_map())
        } else {
            Binding::Single(self.press())
        }
    }

    /// What a plain press triggers.
    pub fn press(&self) -> (action: Action)
        ensures
            action == self@.press(),
    {
        match self {
            Binding::Single(action) => action.clone(),
            Binding::Gesture(map) => match map.get(&GestureDirection::Click) {
                Some(action) => action.clone(),
                None => Action::Nothing,
            },
        }
    }
}

} // verus!
