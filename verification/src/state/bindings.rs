//! Commits of mouse, gesture and keyboard bindings.

use crate::binding::action::Action;
use crate::binding::button::ButtonId;
use crate::binding::gesture::GestureDirection;
use crate::binding::value::{Binding, GestureMap};
#[allow(unused_imports)]
use crate::binding::value::BindingModel;
use crate::config::store::{Config, KeyTrigger};
#[allow(unused_imports)]
use crate::config::store::ConfigModel;
use crate::projection::{
    bindings_for, hidpp_gesture_maps_for, oshook_gestures_for, ActionMap, GestureMaps,
};
#[allow(unused_imports)]
use crate::projection::{
    bindings_model, device_gestures_model, pointer_gestures_model, GestureMapsModel,
};
use crate::table::{Key, Table, Value};
use vstd::prelude::*;

verus! {

/// The two actions of a turned thumb wheel.
#[derive(Debug)]
pub struct ThumbwheelPair {
    /// The wheel is turned backward.
    pub backward: Action,
    /// The wheel is turned forward.
    pub forward: Action,
}

/// A pair of thumb-wheel actions that is picked as a whole.
#[derive(Debug)]
pub enum ThumbwheelPreset {
    /// Zoom in and out. It also switches off the press of the wheel, which
    /// would get in the way of turning it.
    Zoom(ThumbwheelPair),
    /// Any other pair.
    Pair(ThumbwheelPair),
}

impl ThumbwheelPreset {
    /// The two actions of the preset.
    pub open spec fn pair_model(self) -> ThumbwheelPair {
        match self {
            ThumbwheelPreset::Zoom(pair) => pair,
            ThumbwheelPreset::Pair(pair) => pair,
        }
    }

    /// The two actions of the preset.
    pub fn pair(self) -> (pair: ThumbwheelPair)
        ensures
            pair == self.pair_model(),
    {
        match self {
            ThumbwheelPreset::Zoom(pair) => pair,
            ThumbwheelPreset::Pair(pair) => pair,
        }
    }
}

/// A device that the user interface lists.
#[derive(Debug)]
pub struct DeviceRecord {
    /// The key under which the device is stored; none for a device that cannot
    /// be told from others of its kind.
    pub persistent_key: Option<String>,
}

impl DeviceRecord {
    /// The key under which the device is stored.
    pub open spec fn key_model(self) -> Option<Seq<char>> {
        match self.persistent_key {
            Some(key) => Some(key@),
            None => None,
        }
    }

    /// The key under which the device is stored.
    pub fn persistent_config_key(&self) -> (key: Option<&str>)
        ensures
            crate::projection::chars(key) == self.key_model(),
    {
        match &self.persistent_key {
            Some(key) => Some(key.as_str()),
            None => None,
        }
    }
}

/// A change of the configuration that has to be written to disk and picked up
/// by the running agent.
#[derive(Debug, Clone, Copy, PartialEq, Eq, Structural)]
pub enum ConfigChange {
    Binding,
    ThumbwheelBinding,
    KeyboardBinding,
    GestureMode,
    GestureBinding,
}

impl ConfigChange {
    /// What changed, for messages.
    pub fn label(self) -> (label: &'static str)
        ensures
            label@ == match self {
                ConfigChange::Binding => "binding"@,
                ConfigChange::ThumbwheelBinding => "thumb-wheel binding"@,
                ConfigChange::KeyboardBinding => "keyboard binding"@,
                ConfigChange::GestureMode => "gesture-mode change"@,
                ConfigChange::GestureBinding => "gesture binding"@,
            },
    {
        match self {
            ConfigChange::Binding => "binding",
            ConfigChange::ThumbwheelBinding => "thumb-wheel binding",
            ConfigChange::KeyboardBinding => "keyboard binding",
            ConfigChange::GestureMode => "gesture-mode change",
            ConfigChange::GestureBinding => "gesture binding",
        }
    }
}

/// What came of writing the configuration.
#[derive(Debug)]
pub enum WriteOutcome {
    Written,
    /// It could not be written; `stored` is what is stored still.
    Failed { stored: Config, error: String },
}

/// The bindings that the user interface shows and edits.
#[derive(Debug)]
pub struct AppState {
    /// The configuration as edited.
    pub config: Config,
    /// The devices that are listed.
    pub devices: Vec<DeviceRecord>,
    /// The index of the selected device.
    pub selected: Option<usize>,
    /// The application in front, by its bundle name.
    pub current_app_bundle: Option<String>,
    /// The controls whose gestures the device reports, beside the gesture
    /// button.
    pub gesture_sources: Vec<ButtonId>,
    /// The action of every plain press, as shown.
    pub button_bindings: ActionMap,
    /// The gesture maps of the controls in gesture mode, as shown.
    pub gesture_bindings: GestureMaps,
    /// What keyboard keys trigger, as shown.
    pub keyboard_bindings: Table<KeyTrigger, Action>,
    /// Why the last change could not be stored.
    pub config_error: Option<String>,
}

/// An [`AppState`] as a mathematical value.
#[verifier::ext_equal]
pub ghost struct StateModel {
    pub config: ConfigModel,
    pub devices: Seq<DeviceRecord>,
    pub selected: Option<usize>,
    pub app: Option<Seq<char>>,
    pub sources: Seq<ButtonId>,
    pub buttons: Map<ButtonId, Action>,
    pub gestures: GestureMapsModel,
    pub keyboard: Map<Seq<char>, Action>,
    pub error: Option<Seq<char>>,
}

/// The characters of a text that may be absent.
pub open spec fn owned_chars(text: Option<String>) -> Option<Seq<char>> {
    match text {
        Some(t) => Some(t@),
        None => None,
    }
}

impl View for AppState {
    type V = StateModel;

    open spec fn view(&self) -> StateModel {
        StateModel {
            config: self.config@,
            devices: self.devices@,
            selected: self.selected,
            app: owned_chars(self.current_app_bundle),
            sources: self.gesture_sources@,
            buttons: self.button_bindings@,
            gestures: self.gesture_bindings@,
            keyboard: self.keyboard_bindings@,
            error: owned_chars(self.config_error),
        }
    }
}

/// A configuration with both directions of the thumb wheel bound.
pub open spec fn with_thumbwheel_pair(
    config: ConfigModel,
    key: Option<Seq<char>>,
    pair: ThumbwheelPair,
) -> ConfigModel {
    match key {
        None => config,
        Some(k) => config.with_binding(
            k,
            ButtonId::ThumbwheelScrollDown,
            BindingModel::Single(pair.backward),
        ).with_binding(k, ButtonId::ThumbwheelScrollUp, BindingModel::Single(pair.forward)),
    }
}

/// The actions shown once both directions of the thumb wheel are bound.
pub open spec fn shown_thumbwheel_pair(
    buttons: Map<ButtonId, Action>,
    pair: ThumbwheelPair,
) -> Map<ButtonId, Action> {
    buttons.insert(ButtonId::ThumbwheelScrollDown, pair.backward).insert(
        ButtonId::ThumbwheelScrollUp,
        pair.forward,
    )
}

/// The gesture maps shown for a device: those that the device reports, then
/// those that are read from the pointer, for no particular application.
pub open spec fn shown_gestures(
    config: ConfigModel,
    key: Option<Seq<char>>,
    sources: Seq<ButtonId>,
) -> GestureMapsModel {
    if key is None {
        Map::empty()
    } else {
        device_gestures_model(config, key, sources).union_prefer_right(
            pointer_gestures_model(config, key, None, sources),
        )
    }
}

impl StateModel {
    /// The key under which the selected device is stored.
    pub open spec fn key(self) -> Option<Seq<char>> {
        match self.selected {
            Some(i) => if i < self.devices.len() {
                self.devices[i as int].key_model()
            } else {
                None
            },
            None => None,
        }
    }

    /// The state once one control is bound to one action.
    pub open spec fn bound(self, button: ButtonId, action: Action) -> StateModel {
        StateModel {
            buttons: self.buttons.insert(button, action),
            config: match self.key() {
                Some(k) => self.config.with_binding(k, button, BindingModel::Single(action)),
                None => self.config,
            },
            ..self
        }
    }

    /// The state once a thumb-wheel preset is picked.
    pub open spec fn preset(self, preset: ThumbwheelPreset) -> StateModel {
        let s = if preset is Zoom {
            self.bound(ButtonId::Thumbwheel, Action::Nothing)
        } else {
            self
        };
        StateModel {
            buttons: shown_thumbwheel_pair(s.buttons, preset.pair_model()),
            config: with_thumbwheel_pair(s.config, s.key(), preset.pair_model()),
            ..s
        }
    }

    /// The state once one key of the keyboard is bound or freed.
    pub open spec fn key_bound(self, trigger: Seq<char>, action: Option<Action>) -> StateModel {
        StateModel {
            keyboard: match action {
                Some(a) => self.keyboard.insert(trigger, a),
                None => self.keyboard.remove(trigger),
            },
            config: self.config.with_keyboard_binding(trigger, action),
            ..self
        }
    }

    /// Gesture mode of a control of the selected device is to change.
    pub open spec fn mode_changes(self, button: ButtonId, enabled: bool) -> bool {
        self.key() is Some && self.config.gesture_mode(self.key()->0, button) != enabled
    }

    /// The state with everything shown read off its configuration anew, but
    /// for the keyboard.
    pub open spec fn reread(self) -> StateModel {
        StateModel {
            buttons: bindings_model(self.config, self.key(), self.app),
            gestures: shown_gestures(self.config, self.key(), self.sources),
            ..self
        }
    }

    /// The state once gesture mode is switched for one control.
    pub open spec fn mode_set(self, button: ButtonId, enabled: bool) -> StateModel {
        if self.mode_changes(button, enabled) {
            let k = self.key()->0;
            (StateModel {
                config: self.config.with_binding(
                    k,
                    button,
                    self.config.binding(k, button).switched(enabled),
                ),
                ..self
            }).reread()
        } else {
            self
        }
    }

    /// A gesture of a control of the selected device can be edited.
    pub open spec fn gesture_editable(self, button: ButtonId) -> bool {
        self.key() is Some && self.config.gesture_mode(self.key()->0, button)
    }

    /// The gesture map shown for a control.
    pub open spec fn shown_map(self, button: ButtonId) -> Map<GestureDirection, Action> {
        if self.gestures.contains_key(button) {
            self.gestures[button]
        } else {
            Map::empty()
        }
    }

    /// The state once one direction of a gesture is bound.
    pub open spec fn gesture_bound(
        self,
        button: ButtonId,
        direction: GestureDirection,
        action: Action,
    ) -> StateModel {
        if self.gesture_editable(button) {
            let k = self.key()->0;
            StateModel {
                gestures: self.gestures.insert(
                    button,
                    self.shown_map(button).insert(direction, action),
                ),
                config: self.config.with_binding(
                    k,
                    button,
                    BindingModel::Gesture(
                        self.config.binding(k, button).gesture_map().insert(direction, action),
                    ),
                ),
                ..self
            }
        } else {
            self
        }
    }

    /// The state once an edited configuration is given up for a stored one.
    pub open spec fn restored(self, stored: ConfigModel, error: Seq<char>) -> StateModel {
        (StateModel {
            config: stored,
            keyboard: stored.keyboard,
            error: Some(error),
            ..self
        }).reread()
    }

    /// The actions shown are those of the configuration.
    pub open spec fn buttons_in_step(self) -> bool {
        self.buttons == bindings_model(self.config, self.key(), self.app)
    }

    /// The gesture maps shown are those of the configuration.
    pub open spec fn gestures_in_step(self) -> bool {
        self.gestures == shown_gestures(self.config, self.key(), self.sources)
    }

    /// The keyboard actions shown are those of the configuration.
    pub open spec fn keyboard_in_step(self) -> bool {
        self.keyboard == self.config.keyboard
    }

    /// No binding of the application in front hides that of a control.
    pub open spec fn not_overlaid(self, button: ButtonId) -> bool {
        self.app is Some && self.key() is Some ==> self.config.stored_for_app(
            self.key()->0,
            self.app->0,
            button,
        ) is None
    }
}

/// Binds both directions of the thumb wheel, as shown and, where the device
/// has a key, in the configuration. Says whether the configuration changed.
pub fn apply_thumbwheel_pair(
    button_bindings: &mut ActionMap,
    config: &mut Config,
    persistent_key: Option<&str>,
    pair: ThumbwheelPair,
) -> (stored: bool)
    ensures
        stored == (persistent_key is Some),
        final(button_bindings)@ == shown_thumbwheel_pair(old(button_bindings)@, pair),
        final(config)@ == with_thumbwheel_pair(
            old(config)@,
            crate::projection::chars(persistent_key),
            pair,
        ),
{
    button_bindings.insert(ButtonId::ThumbwheelScrollDown, pair.backward.clone());
    button_bindings.insert(ButtonId::ThumbwheelScrollUp, pair.forward.clone());
    match persistent_key {
        None => false,
        Some(key) => {
            config.set_binding(key, ButtonId::ThumbwheelScrollDown, Binding::Single(pair.backward));
            config.set_binding(key, ButtonId::ThumbwheelScrollUp, Binding::Single(pair.forward));
            true
        },
    }
}

/// The text of an optional string.
fn borrowed(text: &Option<String>) -> (borrowed: Option<&str>)
    ensures
        crate::projection::chars(borrowed) == owned_chars(*text),
{
    match text {
        Some(t) => Some(t.as_str()),
        None => None,
    }
}

impl AppState {
    /// The selected device.
    pub fn current_record(&self) -> (record: Option<&DeviceRecord>)
        ensures
            match record {
                Some(r) => self.selected matches Some(i) && i < self.devices@.len()
                    && *r == self.devices@[i as int],
                None => self.selected matches Some(i) ==> i >= self.devices@.len(),
            },
    {
        match self.selected {
            Some(i) => if i < self.devices.len() {
                Some(&self.devices[i])
            } else {
                None
            },
            None => None,
        }
    }

    /// The key under which the selected device is stored.
    fn current_key(&self) -> (key: Option<&str>)
        ensures
            crate::projection::chars(key) == self@.key(),
    {
        match self.current_record() {
            Some(record) => record.persistent_config_key(),
            None => None,
        }
    }

    /// A copy of the key under which the selected device is stored.
    fn owned_key(&self) -> (key: Option<String>)
        ensures
            owned_chars(key) == self@.key(),
    {
        match self.current_key() {
            Some(key) => Some(key.to_owned()),
            None => None,
        }
    }

    /// Binds one control of the selected device to one action: as shown and,
    /// where the device has a key, in the configuration. Without a key the
    /// binding lives only as long as the program.
    pub fn commit_binding(&mut self, button: ButtonId, action: Action) -> (change: Option<
        ConfigChange,
    >)
        ensures
            final(self)@ == old(self)@.bound(button, action),
            change == if old(self)@.key() is Some {
                Some(ConfigChange::Binding)
            } else {
                None
            },
    {
        let ghost target = self@.bound(button, action);
        let key: Option<String> = self.owned_key();
        self.button_bindings.insert(button, action.clone());
        match key {
            None => {
                assert(self@ =~= target);
                None
            },
            Some(key) => {
                self.config.set_binding(key.as_str(), button, Binding::Single(action));
                assert(self@ =~= target);
                Some(ConfigChange::Binding)
            },
        }
    }

    /// Picks a pair of thumb-wheel actions for the selected device. Both
    /// directions change before the one change that is reported.
    pub fn commit_thumbwheel_preset(&mut self, preset: ThumbwheelPreset) -> (change: Option<
        ConfigChange,
    >)
        ensures
            final(self)@ == old(self)@.preset(preset),
            change == if old(self)@.key() is Some {
                Some(ConfigChange::ThumbwheelBinding)
            } else {
                None
            },
    {
        let ghost target = self@.preset(preset);
        let key: Option<String> = self.owned_key();
        let zoom: bool = matches!(preset, ThumbwheelPreset::Zoom(_));
        let pair: ThumbwheelPair = preset.pair();
        if zoom {
            self.button_bindings.insert(ButtonId::Thumbwheel, Action::Nothing);
            if let Some(key) = &key {
                self.config.set_binding(
                    key.as_str(),
                    ButtonId::Thumbwheel,
                    Binding::Single(Action::Nothing),
                );
            }
        }
        let stored: bool = apply_thumbwheel_pair(
            &mut self.button_bindings,
            &mut self.config,
            borrowed(&key),
            pair,
        );
        assert(self@ =~= target);
        if stored {
            Some(ConfigChange::ThumbwheelBinding)
        } else {
            None
        }
    }

    /// Binds one key of the keyboard or, without an action, frees it. Keys are
    /// bound for every device, so this does not depend on the selected one.
    pub fn commit_keyboard_binding(
        &mut self,
        trigger: KeyTrigger,
        action: Option<Action>,
    ) -> (change: ConfigChange)
        ensures
            final(self)@ == old(self)@.key_bound(trigger@, action),
            change == ConfigChange::KeyboardBinding,
    {
        let ghost target = self@.key_bound(trigger@, action);
        match &action {
            Some(action) => {
                self.keyboard_bindings.insert(trigger.copied(), action.clone());
            },
            None => {
                self.keyboard_bindings.remove(&trigger);
            },
        }
        self.config.set_keyboard_binding(trigger, action);
        assert(self@ =~= target);
        ConfigChange::KeyboardBinding
    }

    /// The action of every plain press of the selected device, in the
    /// application in front.
    pub fn bindings_for_current(&self) -> (bindings: ActionMap)
        ensures
            bindings@ == bindings_model(self@.config, self@.key(), self@.app),
    {
        bindings_for(&self.config, self.current_key(), borrowed(&self.current_app_bundle))
    }

    /// The gesture map of every control of the selected device that is in
    /// gesture mode. A map that the device reports has every direction; one
    /// that is read from the pointer is as stored. There is none without a
    /// device.
    #[must_use]
    pub fn current_gesture_maps(&self) -> (maps: GestureMaps)
        ensures
            maps@ == shown_gestures(self@.config, self@.key(), self@.sources),
    {
        match self.current_key() {
            None => Table::new(),
            Some(key) => {
                let mut maps: GestureMaps = hidpp_gesture_maps_for(
                    &self.config,
                    Some(key),
                    &self.gesture_sources,
                );
                maps.extend(
                    oshook_gestures_for(&self.config, Some(key), None, &self.gesture_sources),
                );
                maps
            },
        }
    }

    /// Switches gesture mode on or off for one control of the selected device,
    /// and reads what is shown off the configuration anew. Nothing happens
    /// where the mode is already the wanted one, or without a device.
    pub fn commit_gesture_mode(&mut self, button: ButtonId, enabled: bool) -> (change: Option<
        ConfigChange,
    >)
        ensures
            final(self)@ == old(self)@.mode_set(button, enabled),
            change == if old(self)@.mode_changes(button, enabled) {
                Some(ConfigChange::GestureMode)
            } else {
                None
            },
    {
        let ghost target = self@.mode_set(button, enabled);
        match self.owned_key() {
            None => None,
            Some(key) => {
                if self.config.is_gesture_mode(key.as_str(), button) == enabled {
                    return None;
                }
                self.config.set_gesture_mode(key.as_str(), button, enabled);
                self.button_bindings = self.bindings_for_current();
                self.gesture_bindings = self.current_gesture_maps();
                assert(self@ =~= target);
                Some(ConfigChange::GestureMode)
            },
        }
    }

    /// Binds one direction of a gesture of the selected device. Nothing happens
    /// for a control that is not in gesture mode, or without a device.
    pub fn commit_gesture_binding(
        &mut self,
        button: ButtonId,
        direction: GestureDirection,
        action: Action,
    ) -> (change: Option<ConfigChange>)
        ensures
            final(self)@ == old(self)@.gesture_bound(button, direction, action),
            change == if old(self)@.gesture_editable(button) {
                Some(ConfigChange::GestureBinding)
            } else {
                None
            },
    {
        let ghost before = self@;
        let ghost target = self@.gesture_bound(button, direction, action);
        match self.owned_key() {
            None => None,
            Some(key) => {
                if !self.config.is_gesture_mode(key.as_str(), button) {
                    return None;
                }
                let mut map: GestureMap = match self.gesture_bindings.remove(&button) {
                    Some(map) => map,
                    None => Table::new(),
                };
                assert(map@ == before.shown_map(button));
                map.insert(direction, action.clone());
                self.gesture_bindings.insert(button, map);
                self.config.set_gesture_direction(key.as_str(), button, direction, action);
                assert(self@.gestures =~= target.gestures);
                assert(self@ =~= target);
                Some(ConfigChange::GestureBinding)
            },
        }
    }

    /// Takes the outcome of a write in. A written change is to be picked up by
    /// the running agent; one that could not be written is given up for what is
    /// stored, and the reason kept. Says whether the agent has to read the
    /// configuration again.
    pub fn after_write(&mut self, outcome: WriteOutcome) -> (reload: bool)
        ensures
            match outcome {
                WriteOutcome::Written => reload && final(self)@ == old(self)@,
                WriteOutcome::Failed { stored, error } => !reload && final(self)@ == old(
                    self,
                )@.restored(stored@, error@),
            },
    {
        match outcome {
            WriteOutcome::Written => true,
            WriteOutcome::Failed { stored, error } => {
                self.restore_persisted(stored, error);
                false
            },
        }
    }

    /// Gives an edited configuration up for the stored one after a change could
    /// not be written, and keeps the reason for the user.
    pub fn restore_persisted(&mut self, stored: Config, error: String)
        ensures
            final(self)@ == old(self)@.restored(stored@, error@),
    {
        let ghost target = self@.restored(stored@, error@);
        self.keyboard_bindings = stored.keyboard.copied();
        self.config = stored;
        self.config_error = Some(error);
        self.button_bindings = self.bindings_for_current();
        self.gesture_bindings = self.current_gesture_maps();
        assert(self@ =~= target);
    }
}

} // verus!
