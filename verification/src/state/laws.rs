//! What the commits keep and what they leave alone.

#![allow(unused_imports)]

use crate::binding::action::Action;
use crate::binding::button::ButtonId;
use crate::binding::gesture::GestureDirection;
use crate::binding::value::BindingModel;
use crate::config::store::{Config, ConfigModel, KeyTrigger};
use crate::binding::defaults::{default_binding, default_gesture_map_model};
use crate::projection::{
    application_bindings_come_first, bindings_for, bindings_model, is_device_source, press_of,
    seeded, ActionMap, GestureMapsModel,
};
use crate::state::bindings::{
    owned_chars, shown_gestures, shown_thumbwheel_pair, with_thumbwheel_pair, AppState,
    ConfigChange, DeviceRecord, StateModel, ThumbwheelPair, ThumbwheelPreset, WriteOutcome,
};
use vstd::prelude::*;

verus! {

/// Storing a single action makes it the plain press of that control and
/// touches no other control of any device.
pub proof fn single_binding_changes_one_press(
    config: ConfigModel,
    k: Seq<char>,
    app: Option<Seq<char>>,
    button: ButtonId,
    action: Action,
    other: ButtonId,
)
    requires
        app is Some ==> config.stored_for_app(k, app->0, button) is None,
    ensures
        press_of(
            config.with_binding(k, button, BindingModel::Single(action)),
            Some(k),
            app,
            button,
        ) == action,
        other != button ==> press_of(
            config.with_binding(k, button, BindingModel::Single(action)),
            Some(k),
            app,
            other,
        ) == press_of(config, Some(k), app, other),
{
}

/// A bound control shows what the configuration says, as all others do.
///
/// The application in front must not have a binding of its own for the
/// control: it would win over the one that was just made.
pub proof fn binding_keeps_buttons_in_step(s: StateModel, button: ButtonId, action: Action)
    requires
        s.buttons_in_step(),
        s.key() is Some,
        s.not_overlaid(button),
    ensures
        s.bound(button, action).buttons_in_step(),
{
    let k = s.key()->0;
    let after = s.bound(button, action);
    assert forall|b: ButtonId| after.buttons.contains_key(b) && #[trigger] after.buttons[b]
        == press_of(after.config, after.key(), after.app, b) by {
        single_binding_changes_one_press(s.config, k, s.app, button, action, b);
    }
    assert(after.buttons =~= bindings_model(after.config, after.key(), after.app));
}

/// A control that was not in gesture mode leaves the gesture maps alone when
/// it is bound.
pub proof fn binding_keeps_gestures_in_step(s: StateModel, button: ButtonId, action: Action)
    requires
        s.gestures_in_step(),
        s.key() is Some ==> !s.config.gesture_mode(s.key()->0, button),
    ensures
        s.bound(button, action).gestures_in_step(),
{
    let after = s.bound(button, action);
    assert(after.gestures =~= shown_gestures(after.config, after.key(), after.sources));
}

/// A preset sets both directions and, for zoom, switches the press of the
/// wheel off; what is shown stays what the configuration says.
pub proof fn preset_keeps_buttons_in_step(s: StateModel, preset: ThumbwheelPreset)
    requires
        s.buttons_in_step(),
        s.key() is Some,
        s.not_overlaid(ButtonId::ThumbwheelScrollDown),
        s.not_overlaid(ButtonId::ThumbwheelScrollUp),
        preset is Zoom ==> s.not_overlaid(ButtonId::Thumbwheel),
    ensures
        s.preset(preset).buttons_in_step(),
        s.preset(preset).buttons[ButtonId::ThumbwheelScrollDown] == preset.pair_model().backward,
        s.preset(preset).buttons[ButtonId::ThumbwheelScrollUp] == preset.pair_model().forward,
        preset is Zoom ==> s.preset(preset).buttons[ButtonId::Thumbwheel] == Action::Nothing,
        !(preset is Zoom) ==> s.preset(preset).buttons[ButtonId::Thumbwheel]
            == s.buttons[ButtonId::Thumbwheel],
{
    let pair = preset.pair_model();
    let first = if preset is Zoom {
        s.bound(ButtonId::Thumbwheel, Action::Nothing)
    } else {
        s
    };
    if preset is Zoom {
        binding_keeps_buttons_in_step(s, ButtonId::Thumbwheel, Action::Nothing);
    }
    let second = first.bound(ButtonId::ThumbwheelScrollDown, pair.backward);
    let third = second.bound(ButtonId::ThumbwheelScrollUp, pair.forward);
    binding_keeps_buttons_in_step(first, ButtonId::ThumbwheelScrollDown, pair.backward);
    binding_keeps_buttons_in_step(second, ButtonId::ThumbwheelScrollUp, pair.forward);
    assert(third =~= s.preset(preset));
}

/// A preset is two plain bindings, and a third one for zoom.
pub proof fn preset_is_plain_bindings(s: StateModel, preset: ThumbwheelPreset)
    ensures
        s.preset(preset) == (if preset is Zoom {
            s.bound(ButtonId::Thumbwheel, Action::Nothing)
        } else {
            s
        }).bound(ButtonId::ThumbwheelScrollDown, preset.pair_model().backward).bound(
            ButtonId::ThumbwheelScrollUp,
            preset.pair_model().forward,
        ),
{
    let first = if preset is Zoom {
        s.bound(ButtonId::Thumbwheel, Action::Nothing)
    } else {
        s
    };
    let third = first.bound(
        ButtonId::ThumbwheelScrollDown,
        preset.pair_model().backward,
    ).bound(ButtonId::ThumbwheelScrollUp, preset.pair_model().forward);
    assert(third =~= s.preset(preset));
}

/// Without a device that has a key, no commit for a device reaches the
/// configuration, and no gesture changes at all.
pub proof fn without_a_key_nothing_is_stored(
    s: StateModel,
    button: ButtonId,
    direction: GestureDirection,
    action: Action,
    preset: ThumbwheelPreset,
    enabled: bool,
)
    requires
        s.key() is None,
    ensures
        s.bound(button, action).config == s.config,
        s.preset(preset).config == s.config,
        s.mode_set(button, enabled) == s,
        s.gesture_bound(button, direction, action) == s,
        shown_gestures(s.config, s.key(), s.sources) == GestureMapsModel::empty(),
{
}

/// An edit of a gesture never puts a control into gesture mode.
pub proof fn gesture_edit_never_promotes(
    s: StateModel,
    button: ButtonId,
    direction: GestureDirection,
    action: Action,
    k: Seq<char>,
    other: ButtonId,
)
    ensures
        s.gesture_bound(button, direction, action).config.gesture_mode(k, other)
            == s.config.gesture_mode(k, other),
        !s.gesture_editable(button) ==> s.gesture_bound(button, direction, action) == s,
{
}

/// The maps shown are those of exactly the controls in gesture mode; those
/// that the device reports have every direction.
pub proof fn shown_gestures_are_those_in_gesture_mode(
    config: ConfigModel,
    k: Seq<char>,
    sources: Seq<ButtonId>,
    button: ButtonId,
    direction: GestureDirection,
)
    ensures
        shown_gestures(config, Some(k), sources).contains_key(button) == config.gesture_mode(
            k,
            button,
        ),
        config.gesture_mode(k, button) && is_device_source(sources, button) ==> shown_gestures(
            config,
            Some(k),
            sources,
        )[button].contains_key(direction),
        config.gesture_mode(k, button) && !is_device_source(sources, button) ==> shown_gestures(
            config,
            Some(k),
            sources,
        )[button] == config.binding(k, button)->Gesture_0,
        config.gesture_mode(k, button) && config.binding(
            k,
            button,
        )->Gesture_0.contains_key(direction) ==> shown_gestures(config, Some(k), sources)[button]
            [direction] == config.binding(k, button)->Gesture_0[direction],
{
}

/// An edited gesture shows what the configuration says, as all others do.
pub proof fn gesture_edit_keeps_gestures_in_step(
    s: StateModel,
    button: ButtonId,
    direction: GestureDirection,
    action: Action,
)
    requires
        s.gestures_in_step(),
    ensures
        s.gesture_bound(button, direction, action).gestures_in_step(),
{
    if s.gesture_editable(button) {
        let k = s.key()->0;
        let after = s.gesture_bound(button, direction, action);
        let map = s.config.binding(k, button)->Gesture_0;
        let left = after.gestures;
        let right = shown_gestures(after.config, after.key(), after.sources);
        assert(seeded(map.insert(direction, action)) =~= seeded(map).insert(direction, action));
        assert forall|b: ButtonId|
            (#[trigger] left.dom().contains(b)) == right.dom().contains(b) && (left.dom().contains(
                b,
            ) ==> left[b] == right[b]) by {
            shown_gestures_are_those_in_gesture_mode(s.config, k, s.sources, b, direction);
            shown_gestures_are_those_in_gesture_mode(after.config, k, s.sources, b, direction);
        }
        assert(left =~= right);
    }
}

/// An edit of a direction other than `Click` changes no plain press.
pub proof fn gesture_edit_keeps_buttons_in_step(
    s: StateModel,
    button: ButtonId,
    direction: GestureDirection,
    action: Action,
)
    requires
        s.buttons_in_step(),
        direction != GestureDirection::Click,
        s.gesture_editable(button) ==> s.config.stored(s.key()->0, button) is Some,
    ensures
        s.gesture_bound(button, direction, action).buttons_in_step(),
{
    let after = s.gesture_bound(button, direction, action);
    assert(after.buttons =~= bindings_model(after.config, after.key(), after.app));
}

/// An edit of one direction leaves every other direction of the control, and
/// every other control, as they were.
pub proof fn gesture_edit_is_local(
    s: StateModel,
    button: ButtonId,
    direction: GestureDirection,
    action: Action,
    other: ButtonId,
    other_direction: GestureDirection,
)
    requires
        s.gesture_editable(button),
    ensures
        s.gesture_bound(button, direction, action).config.binding(
            s.key()->0,
            button,
        )->Gesture_0[direction] == action,
        other_direction != direction ==> s.gesture_bound(
            button,
            direction,
            action,
        ).config.binding(s.key()->0, button)->Gesture_0[other_direction] == s.config.binding(
            s.key()->0,
            button,
        )->Gesture_0[other_direction],
        other != button ==> s.gesture_bound(button, direction, action).config.binding(
            s.key()->0,
            other,
        ) == s.config.binding(s.key()->0, other),
{
}

/// Switching gesture mode gives the wanted mode to one control and leaves the
/// mode of every other control as it was; everything shown is read off the
/// configuration, and switching again changes nothing.
pub proof fn mode_is_set_for_one_control(
    s: StateModel,
    button: ButtonId,
    enabled: bool,
    k: Seq<char>,
    other: ButtonId,
)
    requires
        s.key() is Some,
    ensures
        s.mode_set(button, enabled).config.gesture_mode(s.key()->0, button) == enabled,
        k != s.key()->0 || other != button ==> s.mode_set(button, enabled).config.binding(k, other)
            == s.config.binding(k, other),
        s.mode_changes(button, enabled) ==> s.mode_set(button, enabled).buttons_in_step() && s.mode_set(
            button,
            enabled,
        ).gestures_in_step(),
        s.mode_set(button, enabled).mode_set(button, enabled) == s.mode_set(button, enabled),
{
}

/// A control that enters gesture mode answers every direction.
pub proof fn entering_gesture_mode_fills_every_direction(
    s: StateModel,
    button: ButtonId,
    direction: GestureDirection,
)
    requires
        s.mode_changes(button, true),
    ensures
        s.mode_set(button, true).config.binding(
            s.key()->0,
            button,
        )->Gesture_0.contains_key(direction),
        s.mode_set(button, true).gestures[button].contains_key(direction),
{
    let after = s.mode_set(button, true);
    shown_gestures_are_those_in_gesture_mode(
        after.config,
        s.key()->0,
        s.sources,
        button,
        direction,
    );
}

/// What a key of the keyboard shows is what the configuration says.
pub proof fn keyboard_stays_in_step(s: StateModel, trigger: Seq<char>, action: Option<Action>)
    requires
        s.keyboard_in_step(),
    ensures
        s.key_bound(trigger, action).keyboard_in_step(),
        s.key_bound(trigger, action).buttons == s.buttons,
        s.key_bound(trigger, action).config.devices == s.config.devices,
{
}

/// After a change could not be written, everything shown is what is stored.
pub proof fn restoring_puts_everything_in_step(
    s: StateModel,
    stored: ConfigModel,
    error: Seq<char>,
)
    ensures
        s.restored(stored, error).config == stored,
        s.restored(stored, error).buttons_in_step(),
        s.restored(stored, error).gestures_in_step(),
        s.restored(stored, error).keyboard_in_step(),
        s.restored(stored, error).error == Some(error),
{
}

/// The key is that of the selected device; there is none without a selection,
/// with one that is not in the list, or for a device that has none.
pub proof fn the_key_is_that_of_the_selected_device(s: StateModel)
    ensures
        match s.selected {
            Some(i) => if i < s.devices.len() {
                match s.devices[i as int].persistent_key {
                    Some(key) => s.key() == Some(key@),
                    None => s.key() is None,
                }
            } else {
                s.key() is None
            },
            None => s.key() is None,
        },
{
}

/// A state stands for what it holds.
pub proof fn a_state_stands_for_what_it_holds(state: AppState, text: String)
    ensures
        state@.config == state.config@,
        state@.devices == state.devices@,
        state@.selected == state.selected,
        state@.sources == state.gesture_sources@,
        state@.buttons == state.button_bindings@,
        state@.gestures == state.gesture_bindings@,
        state@.keyboard == state.keyboard_bindings@,
        match state.current_app_bundle {
            Some(app) => state@.app == Some(app@),
            None => state@.app is None,
        },
        match state.config_error {
            Some(error) => state@.error == Some(error@),
            None => state@.error is None,
        },
        owned_chars(Some(text)) == Some(text@),
        owned_chars(None) is None,
{
}

/// A bound control is shown with its action and, where the device has a key,
/// stored with it as a single one. Nothing else that is shown or stored changes.
pub proof fn a_bound_control_is_shown_and_stored(
    s: StateModel,
    button: ButtonId,
    action: Action,
    k: Seq<char>,
    other_key: Seq<char>,
    other: ButtonId,
    app: Seq<char>,
)
    ensures
        ({
            let after = s.bound(button, action);
            &&& after.buttons.contains_key(button) && after.buttons[button] == action
            &&& other != button ==> after.buttons.contains_key(other) == s.buttons.contains_key(
                other,
            ) && after.buttons[other] == s.buttons[other]
            &&& s.key() == Some(k) ==> after.config.stored(k, button) == Some(
                BindingModel::Single(action),
            )
            &&& s.key() != Some(other_key) || other != button ==> after.config.stored(
                other_key,
                other,
            ) == s.config.stored(other_key, other)
            &&& after.config.stored_for_app(other_key, app, other) == s.config.stored_for_app(
                other_key,
                app,
                other,
            )
            &&& s.key() is None ==> after.config == s.config
            &&& after.config.keyboard == s.config.keyboard
            &&& after.config.app_settings == s.config.app_settings
            &&& after.devices == s.devices && after.selected == s.selected
            &&& after.app == s.app && after.sources == s.sources
            &&& after.gestures == s.gestures
            &&& after.keyboard == s.keyboard
            &&& after.error == s.error
        }),
{
}

/// The last binding of a control counts, and two controls that are bound one
/// after the other both keep theirs.
pub proof fn bound_controls_do_not_interfere(
    s: StateModel,
    button: ButtonId,
    a: Action,
    other: ButtonId,
    b: Action,
)
    ensures
        s.bound(button, a).bound(button, b).buttons[button] == b,
        s.key() is Some ==> s.bound(button, a).bound(button, b).config.stored(s.key()->0, button)
            == Some(BindingModel::Single(b)),
        button != other ==> s.bound(button, a).bound(other, b).buttons[button] == a && s.bound(
            button,
            a,
        ).bound(other, b).buttons[other] == b,
        button != other && s.key() is Some ==> s.bound(button, a).bound(other, b).config.stored(
            s.key()->0,
            button,
        ) == Some(BindingModel::Single(a)),
{
}

/// A pair of the thumb wheel goes backward to the one direction and forward to
/// the other, as shown and as stored, and changes no other control.
pub proof fn a_pair_goes_to_its_two_directions(
    buttons: Map<ButtonId, Action>,
    config: ConfigModel,
    k: Seq<char>,
    pair: ThumbwheelPair,
    other_key: Seq<char>,
    other: ButtonId,
)
    ensures
        ({
            let shown = shown_thumbwheel_pair(buttons, pair);
            let after = with_thumbwheel_pair(config, Some(k), pair);
            let wheel = other == ButtonId::ThumbwheelScrollDown || other
                == ButtonId::ThumbwheelScrollUp;
            &&& shown.contains_key(ButtonId::ThumbwheelScrollDown)
            &&& shown[ButtonId::ThumbwheelScrollDown] == pair.backward
            &&& shown.contains_key(ButtonId::ThumbwheelScrollUp)
            &&& shown[ButtonId::ThumbwheelScrollUp] == pair.forward
            &&& !wheel ==> shown.contains_key(other) == buttons.contains_key(other)
                && shown[other] == buttons[other]
            &&& after.stored(k, ButtonId::ThumbwheelScrollDown) == Some(
                BindingModel::Single(pair.backward),
            )
            &&& after.stored(k, ButtonId::ThumbwheelScrollUp) == Some(
                BindingModel::Single(pair.forward),
            )
            &&& !wheel || other_key != k ==> after.stored(other_key, other) == config.stored(
                other_key,
                other,
            )
            &&& after.keyboard == config.keyboard
            &&& after.app_settings == config.app_settings
            &&& with_thumbwheel_pair(config, None, pair) == config
        }),
{
}

/// A preset shows and stores its backward action for the wheel turned backward
/// and its forward one for the wheel turned forward. Zoom switches the press of
/// the wheel off, every other preset leaves it alone; nothing else changes.
pub proof fn a_preset_sets_both_directions(
    s: StateModel,
    preset: ThumbwheelPreset,
    k: Seq<char>,
    other_key: Seq<char>,
    other: ButtonId,
)
    ensures
        ({
            let after = s.preset(preset);
            let (backward, forward) = match preset {
                ThumbwheelPreset::Zoom(pair) => (pair.backward, pair.forward),
                ThumbwheelPreset::Pair(pair) => (pair.backward, pair.forward),
            };
            let touched = other == ButtonId::ThumbwheelScrollDown || other
                == ButtonId::ThumbwheelScrollUp || (preset is Zoom && other
                == ButtonId::Thumbwheel);
            &&& after.buttons[ButtonId::ThumbwheelScrollDown] == backward
            &&& after.buttons[ButtonId::ThumbwheelScrollUp] == forward
            &&& preset is Zoom ==> after.buttons[ButtonId::Thumbwheel] == Action::Nothing
            &&& !touched ==> after.buttons.contains_key(other) == s.buttons.contains_key(other)
                && after.buttons[other] == s.buttons[other]
            &&& s.key() == Some(k) ==> {
                &&& after.config.stored(k, ButtonId::ThumbwheelScrollDown) == Some(
                    BindingModel::Single(backward),
                )
                &&& after.config.stored(k, ButtonId::ThumbwheelScrollUp) == Some(
                    BindingModel::Single(forward),
                )
                &&& preset is Zoom ==> after.config.stored(k, ButtonId::Thumbwheel) == Some(
                    BindingModel::Single(Action::Nothing),
                )
            }
            &&& !touched || s.key() != Some(other_key) ==> after.config.stored(other_key, other)
                == s.config.stored(other_key, other)
            &&& s.key() is None ==> after.config == s.config
            &&& after.config.keyboard == s.config.keyboard
            &&& after.config.app_settings == s.config.app_settings
            &&& after.devices == s.devices && after.selected == s.selected
            &&& after.app == s.app && after.sources == s.sources
            &&& after.gestures == s.gestures
            &&& after.keyboard == s.keyboard
            &&& after.error == s.error
        }),
{
}

/// A key of the keyboard that is bound has its action, and one that is freed has
/// none, both as shown and in the configuration. Every other key has what it had,
/// and nothing else changes.
pub proof fn a_key_is_bound_or_freed_alone(
    s: StateModel,
    trigger: Seq<char>,
    action: Action,
    other: Seq<char>,
)
    ensures
        ({
            let bound = s.key_bound(trigger, Some(action));
            let freed = s.key_bound(trigger, None);
            &&& bound.keyboard.contains_key(trigger) && bound.keyboard[trigger] == action
            &&& bound.config.keyboard.contains_key(trigger)
            &&& bound.config.keyboard[trigger] == action
            &&& !freed.keyboard.contains_key(trigger)
            &&& !freed.config.keyboard.contains_key(trigger)
            &&& other != trigger ==> {
                &&& bound.keyboard.contains_key(other) == s.keyboard.contains_key(other)
                &&& freed.keyboard.contains_key(other) == s.keyboard.contains_key(other)
                &&& s.keyboard.contains_key(other) ==> bound.keyboard[other] == s.keyboard[other]
                    && freed.keyboard[other] == s.keyboard[other]
                &&& bound.config.keyboard.contains_key(other) == s.config.keyboard.contains_key(
                    other,
                )
                &&& freed.config.keyboard.contains_key(other) == s.config.keyboard.contains_key(
                    other,
                )
                &&& s.config.keyboard.contains_key(other) ==> bound.config.keyboard[other]
                    == s.config.keyboard[other] && freed.config.keyboard[other]
                    == s.config.keyboard[other]
            }
            &&& bound.config.devices == s.config.devices
            &&& freed.config.devices == s.config.devices
            &&& bound.config.app_settings == s.config.app_settings
            &&& freed.config.app_settings == s.config.app_settings
            &&& bound == (StateModel { keyboard: bound.keyboard, config: bound.config, ..s })
            &&& freed == (StateModel { keyboard: freed.keyboard, config: freed.config, ..s })
        }),
{
}

/// Two keys that are bound one after the other are both bound, as shown and in
/// the configuration.
pub proof fn two_keys_are_both_bound(
    s: StateModel,
    first: Seq<char>,
    a: Action,
    second: Seq<char>,
    b: Action,
)
    requires
        first != second,
    ensures
        ({
            let after = s.key_bound(first, Some(a)).key_bound(second, Some(b));
            &&& after.keyboard.contains_key(first) && after.keyboard[first] == a
            &&& after.keyboard.contains_key(second) && after.keyboard[second] == b
            &&& after.config.keyboard.contains_key(first) && after.config.keyboard[first] == a
            &&& after.config.keyboard.contains_key(second) && after.config.keyboard[second] == b
        }),
{
}

/// The gesture maps shown for a device are those of the controls in gesture
/// mode. A direction that a map has is shown as it is; one that it lacks is
/// shown with its default where the device reports the gestures of the control,
/// and not at all where they are read from the pointer.
pub proof fn shown_directions_are_stored_or_seeded(
    config: ConfigModel,
    k: Seq<char>,
    sources: Seq<ButtonId>,
    button: ButtonId,
    direction: GestureDirection,
)
    ensures
        ({
            let shown = shown_gestures(config, Some(k), sources);
            let reported = button == ButtonId::GestureButton || sources.contains(button);
            &&& match config.binding(k, button) {
                BindingModel::Single(_) => !shown.contains_key(button),
                BindingModel::Gesture(own) => {
                    &&& shown.contains_key(button)
                    &&& own.contains_key(direction) ==> shown[button].contains_key(direction)
                        && shown[button][direction] == own[direction]
                    &&& !own.contains_key(direction) && reported ==> shown[button].contains_key(
                        direction,
                    ) && shown[button][direction] == default_gesture_map_model()[direction]
                    &&& !own.contains_key(direction) && !reported
                        ==> !shown[button].contains_key(direction)
                },
            }
            &&& !shown_gestures(config, None, sources).contains_key(button)
        }),
{
}

/// A mode is changed exactly where a device with a key is selected whose control
/// is not in that mode, and a gesture can be edited exactly where the control of
/// such a device is in gesture mode.
pub proof fn modes_are_read_off_the_binding(s: StateModel, button: ButtonId, enabled: bool)
    ensures
        s.key() is None ==> !s.mode_changes(button, enabled) && !s.gesture_editable(button),
        s.key() matches Some(k) ==> s.gesture_editable(button) == (s.config.binding(
            k,
            button,
        ) is Gesture),
        s.key() matches Some(k) ==> s.mode_changes(button, enabled) == ((s.config.binding(
            k,
            button,
        ) is Gesture) != enabled),
{
}

/// Switching the mode of a control stores it in that mode with its plain press
/// kept, and changes nothing else that is stored. Everything shown is then what
/// is stored. Where the mode is the wanted one nothing changes at all.
pub proof fn switching_stores_the_mode_and_shows_it(
    s: StateModel,
    button: ButtonId,
    enabled: bool,
    k: Seq<char>,
    direction: GestureDirection,
    other_key: Seq<char>,
    other: ButtonId,
)
    requires
        s.key() == Some(k),
    ensures
        ({
            let before = s.config.binding(k, button);
            let after = s.mode_set(button, enabled);
            let stored = after.config.stored(k, button);
            &&& before is Gesture == enabled ==> after == s
            &&& before is Single && enabled ==> {
                &&& stored matches Some(BindingModel::Gesture(map)) && map.contains_key(direction)
                    && map[GestureDirection::Click] == before->Single_0 && (direction
                    != GestureDirection::Click ==> map[direction]
                    == default_gesture_map_model()[direction])
                &&& after.gestures.contains_key(button)
            }
            &&& before is Gesture && !enabled ==> {
                &&& stored == Some(BindingModel::Single(before.press()))
                &&& !after.gestures.contains_key(button)
            }
            &&& other_key != k || other != button ==> after.config.stored(other_key, other)
                == s.config.stored(other_key, other)
            &&& after.config.keyboard == s.config.keyboard
            &&& after.config.app_settings == s.config.app_settings
            &&& before is Gesture != enabled ==> {
                &&& after.buttons == bindings_model(after.config, Some(k), s.app)
                &&& after.gestures == shown_gestures(after.config, Some(k), s.sources)
            }
            &&& after.devices == s.devices && after.selected == s.selected
            &&& after.app == s.app && after.sources == s.sources
            &&& after.keyboard == s.keyboard
            &&& after.error == s.error
        }),
{
    let after = s.mode_set(button, enabled);
    shown_directions_are_stored_or_seeded(after.config, k, s.sources, button, direction);
}

/// An edited direction is shown and stored with its action; every other
/// direction of the control keeps what it had, and so does every other control.
/// Where the control is not in gesture mode nothing changes at all.
pub proof fn an_edited_direction_is_shown_and_stored(
    s: StateModel,
    button: ButtonId,
    direction: GestureDirection,
    action: Action,
    k: Seq<char>,
    other_key: Seq<char>,
    other: ButtonId,
    other_direction: GestureDirection,
)
    requires
        s.key() == Some(k),
    ensures
        ({
            let after = s.gesture_bound(button, direction, action);
            &&& s.config.binding(k, button) is Single ==> after == s
            &&& s.config.binding(k, button) matches BindingModel::Gesture(own) ==> {
                &&& after.gestures.contains_key(button)
                &&& after.gestures[button].contains_key(direction)
                &&& after.gestures[button][direction] == action
                &&& other_direction != direction && s.gestures.contains_key(button)
                    ==> after.gestures[button].contains_key(other_direction)
                    == s.gestures[button].contains_key(other_direction)
                    && after.gestures[button][other_direction]
                    == s.gestures[button][other_direction]
                &&& other_direction != direction && !s.gestures.contains_key(button)
                    ==> !after.gestures[button].contains_key(other_direction)
                &&& after.config.stored(k, button) matches Some(BindingModel::Gesture(map))
                    && map.contains_key(direction) && map[direction] == action && (other_direction
                    != direction ==> map.contains_key(other_direction) == own.contains_key(
                    other_direction,
                ) && map[other_direction] == own[other_direction])
            }
            &&& other != button ==> after.gestures.contains_key(other) == s.gestures.contains_key(
                other,
            ) && after.gestures[other] == s.gestures[other]
            &&& other_key != k || other != button ==> after.config.stored(other_key, other)
                == s.config.stored(other_key, other)
            &&& after.config.keyboard == s.config.keyboard
            &&& after.config.app_settings == s.config.app_settings
            &&& after.devices == s.devices && after.selected == s.selected
            &&& after.app == s.app && after.sources == s.sources
            &&& after.buttons == s.buttons
            &&& after.keyboard == s.keyboard
            &&& after.error == s.error
        }),
{
}

/// After a failed write the configuration, the keyboard and everything shown are
/// those that are stored, and the reason is kept; which devices there are, which
/// one is selected and which application is in front does not change.
pub proof fn a_failed_write_goes_back_to_what_is_stored(
    s: StateModel,
    stored: ConfigModel,
    error: Seq<char>,
)
    ensures
        ({
            let after = s.restored(stored, error);
            &&& after.config == stored
            &&& after.keyboard == stored.keyboard
            &&& after.buttons == bindings_model(stored, s.key(), s.app)
            &&& after.gestures == shown_gestures(stored, s.key(), s.sources)
            &&& after.error == Some(error)
            &&& after.devices == s.devices && after.selected == s.selected
            &&& after.app == s.app && after.sources == s.sources
        }),
{
}

/// A preset has the two actions that it was made of.
pub proof fn a_preset_has_its_pair(pair: ThumbwheelPair)
    ensures
        ThumbwheelPreset::Zoom(pair).pair_model() == pair,
        ThumbwheelPreset::Pair(pair).pair_model() == pair,
{
}

/// A commit for a device is reported, as what it was, exactly where it was
/// stored: with a device that has a key. Only then is the agent to read it.
pub proof fn stored_bindings_are_reported(
    state: &mut AppState,
    button: ButtonId,
    action: Action,
    change: Option<ConfigChange>,
)
    requires
        call_ensures(AppState::commit_binding, (state, button, action), change),
    ensures
        change == Some(ConfigChange::Binding) <==> old(state)@.key() is Some,
        change is None <==> old(state)@.key() is None,
        final(state).button_bindings@.contains_key(button),
        final(state).button_bindings@[button] == action,
        old(state)@.key() is Some ==> final(state).config@.stored(old(state)@.key()->0, button)
            == Some(BindingModel::Single(action)),
        old(state)@.key() is None ==> final(state).config@ == old(state).config@,
{
}

/// A preset is reported once, with both directions changed before.
pub proof fn a_stored_preset_is_reported_once(
    state: &mut AppState,
    preset: ThumbwheelPreset,
    change: Option<ConfigChange>,
)
    requires
        call_ensures(AppState::commit_thumbwheel_preset, (state, preset), change),
    ensures
        change == Some(ConfigChange::ThumbwheelBinding) <==> old(state)@.key() is Some,
        change is None <==> old(state)@.key() is None,
        final(state).button_bindings@[ButtonId::ThumbwheelScrollDown] == (match preset {
            ThumbwheelPreset::Zoom(pair) => pair.backward,
            ThumbwheelPreset::Pair(pair) => pair.backward,
        }),
        final(state).button_bindings@[ButtonId::ThumbwheelScrollUp] == (match preset {
            ThumbwheelPreset::Zoom(pair) => pair.forward,
            ThumbwheelPreset::Pair(pair) => pair.forward,
        }),
        preset is Zoom ==> final(state).button_bindings@[ButtonId::Thumbwheel] == Action::Nothing,
{
}

/// A key of the keyboard is bound or freed whatever device is selected, and that
/// is always reported; every other key keeps what it had.
pub proof fn keys_are_bound_for_every_device(
    state: &mut AppState,
    trigger: KeyTrigger,
    action: Option<Action>,
    change: ConfigChange,
    other: Seq<char>,
)
    requires
        call_ensures(AppState::commit_keyboard_binding, (state, trigger, action), change),
    ensures
        change == ConfigChange::KeyboardBinding,
        final(state).keyboard_bindings@.contains_key(trigger.name@) == (action is Some),
        final(state).config.keyboard@.contains_key(trigger.name@) == (action is Some),
        action is Some ==> final(state).keyboard_bindings@[trigger.name@] == action->0
            && final(state).config.keyboard@[trigger.name@] == action->0,
        other != trigger.name@ ==> {
            &&& final(state).keyboard_bindings@.contains_key(other) == old(
                state,
            ).keyboard_bindings@.contains_key(other)
            &&& final(state).config.keyboard@.contains_key(other) == old(
                state,
            ).config.keyboard@.contains_key(other)
            &&& old(state).keyboard_bindings@.contains_key(other)
                ==> final(state).keyboard_bindings@[other] == old(state).keyboard_bindings@[other]
            &&& old(state).config.keyboard@.contains_key(other)
                ==> final(state).config.keyboard@[other] == old(state).config.keyboard@[other]
        },
        final(state).config.devices@ == old(state).config.devices@,
        final(state).button_bindings@ == old(state).button_bindings@,
        final(state).gesture_bindings@ == old(state).gesture_bindings@,
{
    assert(final(state)@.keyboard == final(state).keyboard_bindings@);
    assert(final(state)@.config.keyboard == final(state).config.keyboard@);
    assert(final(state)@.config.devices == final(state).config.devices@);
    assert(old(state)@.config.keyboard == old(state).config.keyboard@);
}

/// A switched mode is reported exactly where it was another one before, and
/// otherwise nothing changes.
pub proof fn changed_gestures_are_reported(
    state: &mut AppState,
    button: ButtonId,
    enabled: bool,
    change: Option<ConfigChange>,
)
    requires
        call_ensures(AppState::commit_gesture_mode, (state, button, enabled), change),
    ensures
        change == Some(ConfigChange::GestureMode) <==> old(state)@.key() is Some && (old(
            state,
        ).config@.binding(old(state)@.key()->0, button) is Gesture) != enabled,
        change is Some ==> change == Some(ConfigChange::GestureMode),
        change is None ==> final(state)@ == old(state)@,
        change is Some ==> (final(state).config@.binding(old(state)@.key()->0, button) is Gesture)
            == enabled,
{
}

/// An edited direction is reported exactly where the control is in gesture mode,
/// and otherwise nothing changes.
pub proof fn edited_directions_are_reported(
    state: &mut AppState,
    button: ButtonId,
    direction: GestureDirection,
    action: Action,
    change: Option<ConfigChange>,
)
    requires
        call_ensures(AppState::commit_gesture_binding, (state, button, direction, action), change),
    ensures
        change == Some(ConfigChange::GestureBinding) <==> old(state)@.key() is Some && old(
            state,
        ).config@.binding(old(state)@.key()->0, button) is Gesture,
        change is Some ==> change == Some(ConfigChange::GestureBinding),
        change is None ==> final(state)@ == old(state)@,
        change is Some ==> final(state).gesture_bindings@[button][direction] == action,
{
}

/// A written change is read by the agent and stays; one that could not be
/// written is not read, and everything shown and edited is what is stored, with
/// the reason kept.
pub proof fn a_write_counts_or_is_given_up(
    state: &mut AppState,
    outcome: WriteOutcome,
    reload: bool,
)
    requires
        call_ensures(AppState::after_write, (state, outcome), reload),
    ensures
        reload <==> outcome is Written,
        outcome is Written ==> final(state)@ == old(state)@,
        outcome matches WriteOutcome::Failed { stored, error } ==> {
            &&& final(state).config@ == stored@
            &&& final(state).keyboard_bindings@ == stored.keyboard@
            &&& final(state).config_error is Some && final(state).config_error->0@ == error@
            &&& final(state)@.buttons_in_step()
            &&& final(state)@.gestures_in_step()
        },
{
    if let WriteOutcome::Failed { stored, error } = outcome {
        assert(final(state)@ == old(state)@.restored(stored@, error@));
        assert(final(state)@.keyboard == stored@.keyboard);
        assert(final(state)@.config == stored@);
        restoring_puts_everything_in_step(old(state)@, stored@, error@);
    }
}

/// Every kind of change has its own words.
pub proof fn a_change_has_its_words(change: ConfigChange, label: &'static str)
    requires
        call_ensures(ConfigChange::label, (change,), label),
    ensures
        change == ConfigChange::Binding ==> label@ == "binding"@,
        change == ConfigChange::ThumbwheelBinding ==> label@ == "thumb-wheel binding"@,
        change == ConfigChange::KeyboardBinding ==> label@ == "keyboard binding"@,
        change == ConfigChange::GestureMode ==> label@ == "gesture-mode change"@,
        change == ConfigChange::GestureBinding ==> label@ == "gesture binding"@,
{
}

/// What is shown for a device in an application is the plain press of the
/// binding that the application has for each control, whatever the device has
/// for it; without one that of the device, and without either the default.
pub proof fn what_is_shown_is_what_counts(
    config: Config,
    key: &'static str,
    app: &'static str,
    button: ButtonId,
    shown: ActionMap,
    default: Action,
)
    requires
        call_ensures(bindings_for, (&config, Some(key), Some(app)), shown),
        call_ensures(default_binding, (button,), default),
    ensures
        ({
            let known = config.devices@.contains_key(key@);
            let device = config.devices@[key@];
            let in_app = known && device.app_bindings.contains_key(app@)
                && device.app_bindings[app@].contains_key(button);
            let anywhere = known && device.bindings.contains_key(button);
            &&& shown@.contains_key(button)
            &&& in_app ==> shown@[button] == device.app_bindings[app@][button].press()
            &&& !in_app && anywhere ==> shown@[button] == device.bindings[button].press()
            &&& !in_app && !anywhere ==> shown@[button] == default
        }),
{
    application_bindings_come_first(config@, key@, app@, Some(app@), button);
}

} // verus!
