//! The configuration: what each control of each device is set to do.

use crate::binding::action::Action;
use crate::binding::button::ButtonId;
use crate::binding::defaults::default_binding_for;
#[allow(unused_imports)]
use crate::binding::defaults::default_binding_model;
use crate::binding::gesture::GestureDirection;
use crate::binding::value::{Binding, GestureMap};
#[allow(unused_imports)]
use crate::binding::value::BindingModel;
use crate::config::settings::AppSettings;
use crate::table::{Key, Table, Value};
use vstd::prelude::*;

verus! {

/// A key of the keyboard, by the name it has in the keyboard table.
#[derive(Debug, PartialEq, Eq)]
pub struct KeyTrigger {
    pub name: String,
}

impl View for KeyTrigger {
    type V = Seq<char>;

    open spec fn view(&self) -> Seq<char> {
        self.name@
    }
}

impl Key for KeyTrigger {
    fn same(&self, other: &KeyTrigger) -> (same: bool) {
        self.name == other.name
    }

    fn copied(&self) -> (trigger: KeyTrigger) {
        KeyTrigger { name: self.name.clone() }
    }
}

/// The bindings of one device.
#[derive(Debug)]
pub struct DeviceConfig {
    /// The bindings that hold everywhere.
    pub bindings: Table<ButtonId, Binding>,
    /// Bindings that hold in one application, by its bundle name, and there
    /// come before the others.
    pub app_bindings: Table<String, Table<ButtonId, Binding>>,
}

/// A [`DeviceConfig`] as a mathematical value.
#[verifier::ext_equal]
pub ghost struct DeviceModel {
    pub bindings: Map<ButtonId, BindingModel>,
    pub app_bindings: Map<Seq<char>, Map<ButtonId, BindingModel>>,
}

impl View for DeviceConfig {
    type V = DeviceModel;

    open spec fn view(&self) -> DeviceModel {
        DeviceModel { bindings: self.bindings@, app_bindings: self.app_bindings@ }
    }
}

impl Value for DeviceConfig {
    fn copied(&self) -> (device: DeviceConfig) {
        DeviceConfig {
            bindings: self.bindings.copied(),
            app_bindings: self.app_bindings.copied(),
        }
    }
}

impl DeviceModel {
    /// The device for which nothing is stored.
    pub open spec fn empty() -> DeviceModel {
        DeviceModel { bindings: Map::empty(), app_bindings: Map::empty() }
    }
}

impl DeviceConfig {
    /// The device for which nothing is stored.
    pub fn new() -> (device: DeviceConfig)
        ensures
            device@ == DeviceModel::empty(),
    {
        DeviceConfig { bindings: Table::new(), app_bindings: Table::new() }
    }
}

/// Everything that is persisted.
#[derive(Debug)]
pub struct Config {
    /// Devices by their persistent key.
    pub devices: Table<String, DeviceConfig>,
    /// What keyboard keys trigger, on every device.
    pub keyboard: Table<KeyTrigger, Action>,
    /// Preferences that belong to no device.
    pub app_settings: AppSettings,
}

/// A [`Config`] as a mathematical value.
#[verifier::ext_equal]
pub ghost struct ConfigModel {
    pub devices: Map<Seq<char>, DeviceModel>,
    pub keyboard: Map<Seq<char>, Action>,
    pub app_settings: AppSettings,
}

impl View for Config {
    type V = ConfigModel;

    open spec fn view(&self) -> ConfigModel {
        ConfigModel {
            devices: self.devices@,
            keyboard: self.keyboard@,
            app_settings: self.app_settings,
        }
    }
}

impl ConfigModel {
    /// The configuration in which nothing is stored.
    pub open spec fn ephemeral() -> ConfigModel {
        ConfigModel {
            devices: Map::empty(),
            keyboard: Map::empty(),
            app_settings: AppSettings::default_model(),
        }
    }

    /// What is stored for a device.
    pub open spec fn device(self, key: Seq<char>) -> DeviceModel {
        if self.devices.contains_key(key) {
            self.devices[key]
        } else {
            DeviceModel::empty()
        }
    }

    /// The binding stored for a control.
    pub open spec fn stored(self, key: Seq<char>, button: ButtonId) -> Option<BindingModel> {
        if self.device(key).bindings.contains_key(button) {
            Some(self.device(key).bindings[button])
        } else {
            None
        }
    }

    /// The binding stored for a control in one application.
    pub open spec fn stored_for_app(
        self,
        key: Seq<char>,
        app: Seq<char>,
        button: ButtonId,
    ) -> Option<BindingModel> {
        let device = self.device(key);
        if device.app_bindings.contains_key(app) && device.app_bindings[app].contains_key(button) {
            Some(device.app_bindings[app][button])
        } else {
            None
        }
    }

    /// The binding of a control: the stored one, or its default.
    pub open spec fn binding(self, key: Seq<char>, button: ButtonId) -> BindingModel {
        match self.stored(key, button) {
            Some(binding) => binding,
            None => default_binding_model(button),
        }
    }

    /// Whether the movement picks what a control triggers.
    pub open spec fn gesture_mode(self, key: Seq<char>, button: ButtonId) -> bool {
        self.binding(key, button) is Gesture
    }

    /// The configuration with one binding stored.
    pub open spec fn with_binding(
        self,
        key: Seq<char>,
        button: ButtonId,
        binding: BindingModel,
    ) -> ConfigModel {
        let device = self.device(key);
        ConfigModel {
            devices: self.devices.insert(
                key,
                DeviceModel { bindings: device.bindings.insert(button, binding), ..device },
            ),
            ..self
        }
    }

    /// The configuration with one key of the keyboard bound or, without an
    /// action, free.
    pub open spec fn with_keyboard_binding(
        self,
        trigger: Seq<char>,
        action: Option<Action>,
    ) -> ConfigModel {
        ConfigModel {
            keyboard: match action {
                Some(a) => self.keyboard.insert(trigger, a),
                None => self.keyboard.remove(trigger),
            },
            ..self
        }
    }

    /// A stored binding is read back, and nothing else changes.
    pub proof fn stored_binding_reads_back(
        self,
        key: Seq<char>,
        button: ButtonId,
        binding: BindingModel,
        other_key: Seq<char>,
        other: ButtonId,
        app: Seq<char>,
    )
        ensures
            self.with_binding(key, button, binding).binding(key, button) == binding,
            other_key != key || other != button ==> self.with_binding(
                key,
                button,
                binding,
            ).stored(other_key, other) == self.stored(other_key, other),
            self.with_binding(key, button, binding).stored_for_app(other_key, app, other)
                == self.stored_for_app(other_key, app, other),
            self.with_binding(key, button, binding).keyboard == self.keyboard,
            self.with_binding(key, button, binding).app_settings == self.app_settings,
    {
    }
}

impl Config {
    /// The configuration in which nothing is stored.
    pub fn ephemeral() -> (config: Config)
        ensures
            config@ == ConfigModel::ephemeral(),
    {
        Config {
            devices: Table::new(),
            keyboard: Table::new(),
            app_settings: AppSettings::default(),
        }
    }

    /// The binding stored for a control.
    pub fn stored(&self, key: &str, button: ButtonId) -> (binding: Option<&Binding>)
        ensures
            match binding {
                Some(b) => self@.stored(key@, button) == Some(b@),
                None => self@.stored(key@, button) is None,
            },
    {
        match self.devices.get(&key.to_owned()) {
            Some(device) => device.bindings.get(&button),
            None => None,
        }
    }

    /// The binding stored for a control in one application.
    pub fn stored_for_app(&self, key: &str, app: &str, button: ButtonId) -> (binding: Option<
        &Binding,
    >)
        ensures
            match binding {
                Some(b) => self@.stored_for_app(key@, app@, button) == Some(b@),
                None => self@.stored_for_app(key@, app@, button) is None,
            },
    {
        match self.devices.get(&key.to_owned()) {
            Some(device) => match device.app_bindings.get(&app.to_owned()) {
                Some(bindings) => bindings.get(&button),
                None => None,
            },
            None => None,
        }
    }

    /// The binding of a control: the stored one, or its default.
    pub fn binding(&self, key: &str, button: ButtonId) -> (binding: Binding)
        ensures
            binding@ == self@.binding(key@, button),
    {
        match self.stored(key, button) {
            Some(binding) => binding.copied(),
            None => default_binding_for(button),
        }
    }

    /// Stores a binding, in place of an earlier one.
    pub fn set_binding(&mut self, key: &str, button: ButtonId, binding: Binding)
        ensures
            final(self)@ == old(self)@.with_binding(key@, button, binding@),
    {
        let ghost before = self@;
        let name: String = key.to_owned();
        let mut device: DeviceConfig = match self.devices.remove(&name) {
            Some(device) => device,
            None => DeviceConfig::new(),
        };
        assert(device@ == before.device(key@));
        device.bindings.insert(button, binding);
        self.devices.insert(name, device);
        assert(self@.devices =~= before.with_binding(key@, button, binding@).devices);
    }

    /// Whether the movement picks what a control triggers.
    pub fn is_gesture_mode(&self, key: &str, button: ButtonId) -> (gesture: bool)
        ensures
            gesture == self@.gesture_mode(key@, button),
    {
        match self.stored(key, button) {
            Some(binding) => binding.is_gesture(),
            None => default_binding_for(button).is_gesture(),
        }
    }

    /// Switches gesture mode on or off for one control. What a plain press
    /// triggers is kept; a control that enters gesture mode gets every default
    /// direction beside it.
    pub fn set_gesture_mode(&mut self, key: &str, button: ButtonId, enabled: bool)
        ensures
            final(self)@ == old(self)@.with_binding(
                key@,
                button,
                old(self)@.binding(key@, button).switched(enabled),
            ),
    {
        let binding: Binding = self.binding(key, button).switched(enabled);
        self.set_binding(key, button, binding);
    }

    /// Stores the action of one gesture direction. A control that is not in
    /// gesture mode enters it.
    pub fn set_gesture_direction(
        &mut self,
        key: &str,
        button: ButtonId,
        direction: GestureDirection,
        action: Action,
    )
        ensures
            final(self)@ == old(self)@.with_binding(
                key@,
                button,
                BindingModel::Gesture(
                    old(self)@.binding(key@, button).gesture_map().insert(direction, action),
                ),
            ),
    {
        let mut map: GestureMap = self.binding(key, button).into_gesture_map();
        map.insert(direction, action);
        self.set_binding(key, button, Binding::Gesture(map));
    }

    /// Binds one key of the keyboard or, without an action, frees it.
    pub fn set_keyboard_binding(&mut self, trigger: KeyTrigger, action: Option<Action>)
        ensures
            final(self)@ == old(self)@.with_keyboard_binding(trigger@, action),
    {
        match action {
            Some(action) => {
                self.keyboard.insert(trigger, action);
            },
            None => {
                self.keyboard.remove(&trigger);
            },
        }
    }
}

} // verus!
