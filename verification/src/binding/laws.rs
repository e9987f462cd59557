//! What the defaults, the names and the two modes of a binding mean.

#![allow(unused_imports)]

use crate::binding::action::Action;
use crate::binding::button::ButtonId;
use crate::binding::defaults::{
    default_action, default_binding, default_binding_for, default_binding_model,
    default_gesture_action, default_gesture_binding, default_gesture_map_model,
};
use crate::binding::gesture::GestureDirection;
use crate::binding::value::{Binding, BindingModel};
use vstd::prelude::*;

verus! {

/// Each native click is the default of the control of the same name and of no
/// other, and so is every other default that does something.
pub proof fn each_default_belongs_to_one_control(button: ButtonId)
    ensures
        default_action(button) == Action::LeftClick <==> button == ButtonId::LeftClick,
        default_action(button) == Action::RightClick <==> button == ButtonId::RightClick,
        default_action(button) == Action::MiddleClick <==> button == ButtonId::MiddleClick,
        default_action(button) == Action::BrowserBack <==> button == ButtonId::Back,
        default_action(button) == Action::BrowserForward <==> button == ButtonId::Forward,
        default_action(button) == Action::CycleDpiPresets <==> button == ButtonId::DpiToggle,
        default_action(button) == Action::HorizontalScrollRight <==> button
            == ButtonId::ThumbwheelScrollUp,
        default_action(button) == Action::HorizontalScrollLeft <==> button
            == ButtonId::ThumbwheelScrollDown,
        default_action(button) == Action::MissionControl <==> button == ButtonId::GestureButton,
        default_action(button) == Action::ShowActionsRing <==> button == ButtonId::HapticPanel,
{
}

/// Two controls share a default only where both do nothing, which exactly the
/// press of the thumb wheel and the keys of the keyboard do.
pub proof fn only_idle_controls_share_a_default(a: ButtonId, b: ButtonId)
    ensures
        default_action(a) == default_action(b) ==> a == b || default_action(a) == Action::Nothing,
        default_action(a) == Action::Nothing <==> a is Thumbwheel || a is KeySearch
            || a is KeyDictation || a is KeyEmoji || a is KeyScreenCapture || a is KeyMicMute
            || a is KeyPlayPause || a is KeyMute || a is KeyVolumeDown || a is KeyVolumeUp,
{
}

/// The two directions of the thumb wheel scroll to opposite sides: forward to
/// the right, backward to the left.
pub proof fn thumb_wheel_directions_are_opposite()
    ensures
        default_action(ButtonId::ThumbwheelScrollUp) != default_action(
            ButtonId::ThumbwheelScrollDown,
        ),
        default_action(ButtonId::ThumbwheelScrollUp) is HorizontalScrollRight,
        default_action(ButtonId::ThumbwheelScrollDown) is HorizontalScrollLeft,
{
}

/// Each default of a gesture belongs to one direction.
pub proof fn each_gesture_default_belongs_to_one_direction(direction: GestureDirection)
    ensures
        default_gesture_action(direction) == Action::MissionControl <==> direction
            == GestureDirection::Up,
        default_gesture_action(direction) == Action::ShowDesktop <==> direction
            == GestureDirection::Down,
        default_gesture_action(direction) == Action::PrevTab <==> direction
            == GestureDirection::Left,
        default_gesture_action(direction) == Action::NextTab <==> direction
            == GestureDirection::Right,
        default_gesture_action(direction) == Action::AppExpose <==> direction
            == GestureDirection::Click,
        default_gesture_map_model().contains_key(direction),
        default_gesture_map_model()[direction] == default_gesture_action(direction),
{
}

/// Exactly the gesture button starts in gesture mode, with the default of every
/// direction; every other control starts with its single default.
pub proof fn only_the_gesture_button_starts_in_gesture_mode(
    button: ButtonId,
    direction: GestureDirection,
)
    ensures
        default_binding_model(button) is Gesture <==> button == ButtonId::GestureButton,
        button != ButtonId::GestureButton ==> default_binding_model(button)
            == BindingModel::Single(default_action(button)),
        default_binding_model(button) matches BindingModel::Gesture(map) ==> map.contains_key(
            direction,
        ) && map[direction] == default_gesture_action(direction),
{
}

/// A plain press triggers the single action, or the `Click` of a gesture, or
/// nothing where a gesture has no `Click`.
pub proof fn a_press_is_the_action_or_the_click(
    action: Action,
    map: Map<GestureDirection, Action>,
)
    ensures
        BindingModel::Single(action).press() == action,
        BindingModel::Gesture(map.insert(GestureDirection::Click, action)).press() == action,
        BindingModel::Gesture(map.remove(GestureDirection::Click)).press() == Action::Nothing,
{
}

/// A movement never changes what a plain press triggers.
pub proof fn movements_do_not_change_the_press(
    map: Map<GestureDirection, Action>,
    direction: GestureDirection,
    action: Action,
)
    requires
        direction != GestureDirection::Click,
    ensures
        BindingModel::Gesture(map.insert(direction, action)).press() == BindingModel::Gesture(
            map,
        ).press(),
        BindingModel::Gesture(map.remove(direction)).press() == BindingModel::Gesture(map).press(),
{
}

/// A single action that becomes a gesture stays its `Click`, and every other
/// direction gets its default.
pub proof fn a_promoted_action_stays_the_click(action: Action, direction: GestureDirection)
    ensures
        BindingModel::Single(action).gesture_map().contains_key(direction),
        BindingModel::Single(action).gesture_map()[GestureDirection::Click] == action,
        direction != GestureDirection::Click ==> BindingModel::Single(
            action,
        ).gesture_map()[direction] == default_gesture_action(direction),
{
}

/// A gesture keeps its own map, with nothing filled in.
pub proof fn a_gesture_keeps_its_map(map: Map<GestureDirection, Action>)
    ensures
        BindingModel::Gesture(map).gesture_map() == map,
        BindingModel::Gesture(map).switched(true) == BindingModel::Gesture(map),
{
}

/// Switching gives the wanted mode, and nothing changes where it is the mode
/// already. Out of gesture mode there is one action, that of the plain press.
pub proof fn switching_gives_the_wanted_mode(binding: BindingModel, gesture: bool)
    ensures
        binding.switched(gesture) is Gesture <==> gesture,
        binding is Gesture == gesture ==> binding.switched(gesture) == binding,
        binding.switched(false) == BindingModel::Single(binding.press()),
{
}

/// A single action survives a turn through gesture mode.
pub proof fn a_single_action_survives_gesture_mode(action: Action)
    ensures
        BindingModel::Single(action).switched(true) is Gesture,
        BindingModel::Single(action).switched(true).switched(false) == BindingModel::Single(action),
{
}

/// Controls, directions and actions stand for themselves; a binding stands for
/// its action or for its map.
pub proof fn values_stand_for_themselves(
    button: ButtonId,
    direction: GestureDirection,
    action: Action,
    binding: Binding,
)
    ensures
        button@ == button,
        direction@ == direction,
        action@ == action,
        binding matches Binding::Single(a) ==> binding@ == BindingModel::Single(a),
        binding matches Binding::Gesture(map) ==> binding@ == BindingModel::Gesture(map@),
{
}

/// A name belongs to the control that it spells, and to no other.
pub proof fn a_name_spells_its_control(button: ButtonId)
    ensures
        button.name_model() == "LeftClick"@ <==> button == ButtonId::LeftClick,
        button.name_model() == "RightClick"@ <==> button == ButtonId::RightClick,
        button.name_model() == "MiddleClick"@ <==> button == ButtonId::MiddleClick,
        button.name_model() == "Back"@ <==> button == ButtonId::Back,
        button.name_model() == "Forward"@ <==> button == ButtonId::Forward,
        button.name_model() == "DpiToggle"@ <==> button == ButtonId::DpiToggle,
        button.name_model() == "Thumbwheel"@ <==> button == ButtonId::Thumbwheel,
        button.name_model() == "ThumbwheelScrollUp"@ <==> button == ButtonId::ThumbwheelScrollUp,
        button.name_model() == "ThumbwheelScrollDown"@ <==> button
            == ButtonId::ThumbwheelScrollDown,
        button.name_model() == "GestureButton"@ <==> button == ButtonId::GestureButton,
        button.name_model() == "HapticPanel"@ <==> button == ButtonId::HapticPanel,
        button.name_model() == "KeySearch"@ <==> button == ButtonId::KeySearch,
        button.name_model() == "KeyDictation"@ <==> button == ButtonId::KeyDictation,
        button.name_model() == "KeyEmoji"@ <==> button == ButtonId::KeyEmoji,
        button.name_model() == "KeyScreenCapture"@ <==> button == ButtonId::KeyScreenCapture,
        button.name_model() == "KeyMicMute"@ <==> button == ButtonId::KeyMicMute,
        button.name_model() == "KeyPlayPause"@ <==> button == ButtonId::KeyPlayPause,
        button.name_model() == "KeyMute"@ <==> button == ButtonId::KeyMute,
        button.name_model() == "KeyVolumeDown"@ <==> button == ButtonId::KeyVolumeDown,
        button.name_model() == "KeyVolumeUp"@ <==> button == ButtonId::KeyVolumeUp,
{
    lemma_same_name(button, ButtonId::LeftClick);
    lemma_same_name(button, ButtonId::RightClick);
    lemma_same_name(button, ButtonId::MiddleClick);
    lemma_same_name(button, ButtonId::Back);
    lemma_same_name(button, ButtonId::Forward);
    lemma_same_name(button, ButtonId::DpiToggle);
    lemma_same_name(button, ButtonId::Thumbwheel);
    lemma_same_name(button, ButtonId::ThumbwheelScrollUp);
    lemma_same_name(button, ButtonId::ThumbwheelScrollDown);
    lemma_same_name(button, ButtonId::GestureButton);
    lemma_same_name(button, ButtonId::HapticPanel);
    lemma_same_name(button, ButtonId::KeySearch);
    lemma_same_name(button, ButtonId::KeyDictation);
    lemma_same_name(button, ButtonId::KeyEmoji);
    lemma_same_name(button, ButtonId::KeyScreenCapture);
    lemma_same_name(button, ButtonId::KeyMicMute);
    lemma_same_name(button, ButtonId::KeyPlayPause);
    lemma_same_name(button, ButtonId::KeyMute);
    lemma_same_name(button, ButtonId::KeyVolumeDown);
    lemma_same_name(button, ButtonId::KeyVolumeUp);
}

/// Names are equal exactly where the controls are.
proof fn lemma_same_name(a: ButtonId, b: ButtonId)
    ensures
        a.name_model() == b.name_model() <==> a == b,
{
    if a.name_model() == b.name_model() {
        ButtonId::names_are_distinct(a, b);
    }
}

/// The default of a control clicks, goes or scrolls as the control is named, and
/// only the press of the thumb wheel and the keys of the keyboard do nothing.
pub proof fn a_fresh_control_does_what_it_is_named_after(button: ButtonId, action: Action)
    requires
        call_ensures(default_binding, (button,), action),
    ensures
        action == Action::LeftClick <==> button == ButtonId::LeftClick,
        action == Action::RightClick <==> button == ButtonId::RightClick,
        action == Action::MiddleClick <==> button == ButtonId::MiddleClick,
        action == Action::BrowserBack <==> button == ButtonId::Back,
        action == Action::BrowserForward <==> button == ButtonId::Forward,
        action == Action::CycleDpiPresets <==> button == ButtonId::DpiToggle,
        action == Action::HorizontalScrollRight <==> button == ButtonId::ThumbwheelScrollUp,
        action == Action::HorizontalScrollLeft <==> button == ButtonId::ThumbwheelScrollDown,
        action == Action::MissionControl <==> button == ButtonId::GestureButton,
        action == Action::ShowActionsRing <==> button == ButtonId::HapticPanel,
{
}

/// A fresh control is bound to its default action, but for the gesture button,
/// whose map has the default action of every direction.
pub proof fn a_fresh_binding_is_made_of_the_defaults(
    button: ButtonId,
    direction: GestureDirection,
    binding: Binding,
    action: Action,
    gesture: Action,
)
    requires
        call_ensures(default_binding_for, (button,), binding),
        call_ensures(default_binding, (button,), action),
        call_ensures(default_gesture_binding, (direction,), gesture),
    ensures
        binding is Gesture <==> button == ButtonId::GestureButton,
        binding is Single ==> binding->Single_0 == action,
        binding is Gesture ==> binding->Gesture_0@.contains_key(direction)
            && binding->Gesture_0@[direction] == gesture,
{
}

} // verus!
