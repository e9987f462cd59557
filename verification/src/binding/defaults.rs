//! Default bindings for a fresh device and for a fresh gesture map.

use crate::binding::action::Action;
use crate::binding::button::ButtonId;
use crate::binding::gesture::GestureDirection;
use crate::binding::value::{Binding, BindingModel, GestureMap};
use crate::table::Table;
use vstd::prelude::*;

verus! {

/// The default single action of each control.
pub open spec fn default_action(button: ButtonId) -> Action {
    match button {
        ButtonId::LeftClick => Action::LeftClick,
        ButtonId::RightClick => Action::RightClick,
        ButtonId::MiddleClick => Action::MiddleClick,
        ButtonId::Back => Action::BrowserBack,
        ButtonId::Forward => Action::BrowserForward,
        ButtonId::DpiToggle => Action::CycleDpiPresets,
        ButtonId::ThumbwheelScrollUp => Action::HorizontalScrollRight,
        ButtonId::ThumbwheelScrollDown => Action::HorizontalScrollLeft,
        ButtonId::GestureButton => Action::MissionControl,
        ButtonId::HapticPanel => Action::ShowActionsRing,
        _ => Action::Nothing,
    }
}

/// The default action of each gesture direction.
pub open spec fn default_gesture_action(direction: GestureDirection) -> Action {
    match direction {
        GestureDirection::Up => Action::MissionControl,
        GestureDirection::Down => Action::ShowDesktop,
        GestureDirection::Left => Action::PrevTab,
        GestureDirection::Right => Action::NextTab,
        GestureDirection::Click => Action::AppExpose,
    }
}

/// The default gesture map, which has every direction.
pub open spec fn default_gesture_map_model() -> Map<GestureDirection, Action> {
    Map::new(|d: GestureDirection| true, |d: GestureDirection| default_gesture_action(d))
}

/// The default binding of each control.
pub open spec fn default_binding_model(button: ButtonId) -> BindingModel {
    if button == ButtonId::GestureButton {
        BindingModel::Gesture(default_gesture_map_model())
    } else {
        BindingModel::Single(default_action(button))
    }
}

/// Sensible single actions for a fresh device.
///
/// The press of the thumb wheel does nothing, so that turning the wheel cannot
/// trigger anything by accident. Turning the wheel scrolls horizontally:
/// forward to the right and backward to the left. Keyboard keys keep their
/// native function until they are bound, so they default to nothing as well.
///
/// The entry of the gesture button only keeps this function total: its default
/// binding is a gesture, see [`default_binding_for`].
#[must_use]
pub fn default_binding(button: ButtonId) -> (action: Action)
    ensures
        action == default_action(button),
{
    match button {
        ButtonId::LeftClick => Action::LeftClick,
        ButtonId::RightClick => Action::RightClick,
        ButtonId::MiddleClick => Action::MiddleClick,
        ButtonId::Back => Action::BrowserBack,
        ButtonId::Forward => Action::BrowserForward,
        ButtonId::DpiToggle => Action::CycleDpiPresets,
        ButtonId::ThumbwheelScrollUp => Action::HorizontalScrollRight,
        ButtonId::ThumbwheelScrollDown => Action::HorizontalScrollLeft,
        ButtonId::GestureButton => Action::MissionControl,
        ButtonId::HapticPanel => Action::ShowActionsRing,
        ButtonId::Thumbwheel
        | ButtonId::KeySearch
        | ButtonId::KeyDictation
        | ButtonId::KeyEmoji
        | ButtonId::KeyScreenCapture
        | ButtonId::KeyMicMute
        | ButtonId::KeyPlayPause
        | ButtonId::KeyMute
        | ButtonId::KeyVolumeDown
        | ButtonId::KeyVolumeUp => Action::Nothing,
    }
}

/// The default action for one direction of the gesture button.
#[must_use]
pub fn default_gesture_binding(direction: GestureDirection) -> (action: Action)
    ensures
        action == default_gesture_action(direction),
{
    match direction {
        GestureDirection::Up => Action::MissionControl,
        GestureDirection::Down => Action::ShowDesktop,
        GestureDirection::Left => Action::PrevTab,
        GestureDirection::Right => Action::NextTab,
        GestureDirection::Click => Action::AppExpose,
    }
}

/// The default action of every gesture direction.
pub fn default_gesture_map() -> (map: GestureMap)
    ensures
        map@ == default_gesture_map_model(),
{
    let directions: Vec<GestureDirection> = GestureDirection::all();
    let mut map: GestureMap = Table::new();
    let mut i: usize = 0;
    while i < directions.len()
        invariant
            i <= directions@.len(),
            directions@ == GestureDirection::every(),
            forall|d: GestureDirection| #[trigger] map@.contains_key(d) <==> d.place() < i,
            forall|d: GestureDirection| #[trigger]
                map@.contains_key(d) ==> map@[d] == default_gesture_action(d),
        decreases directions@.len() - i,
    {
        let direction: GestureDirection = directions[i];
        proof {
            direction.every_is_complete();
        }
        map.insert(direction, default_gesture_binding(direction));
        i += 1;
    }
    proof {
        assert forall|d: GestureDirection| #[trigger] map@.contains_key(d) by {
            d.every_is_complete();
        }
        assert(map@ =~= default_gesture_map_model());
    }
    map
}

/// The default binding of a control.
///
/// The gesture button starts with the full default gesture map, every other
/// control with its single default action. A gesture binding that is seeded
/// from here therefore has every direction, `Click` included.
#[must_use]
pub fn default_binding_for(button: ButtonId) -> (binding: Binding)
    ensures
        binding@ == default_binding_model(button),
{
    match button {
        ButtonId::GestureButton => Binding::Gesture(default_gesture_map()),
        other => Binding::Single(default_binding(other)),
    }
}

/// A gesture binding that a control starts with answers every direction, and
/// its plain press triggers something.
pub proof fn default_gestures_are_full(button: ButtonId, direction: GestureDirection)
    requires
        default_binding_model(button) is Gesture,
    ensures
        default_binding_model(button)->Gesture_0.contains_key(direction),
        default_binding_model(button).press() != Action::Nothing,
{
}

} // verus!
