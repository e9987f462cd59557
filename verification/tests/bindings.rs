use openlogi::binding::action::Action;
use openlogi::binding::button::ButtonId;
use openlogi::binding::defaults::{default_binding, default_binding_for, default_gesture_binding};
use openlogi::binding::gesture::GestureDirection;
use openlogi::binding::value::{Binding, GestureMap};
use openlogi::config::persistence::{start_with, ConfigPersistence};
use openlogi::config::settings::AppSettings;
use openlogi::config::store::{Config, DeviceConfig, KeyTrigger};
use openlogi::projection::{bindings_for, hidpp_gesture_maps_for, oshook_gestures_for};
use openlogi::state::bindings::{
    apply_thumbwheel_pair, AppState, ConfigChange, DeviceRecord, ThumbwheelPair, ThumbwheelPreset,
    WriteOutcome,
};
use openlogi::table::{Table, Value};

const KEY: &str = "mouse-1";

fn empty_config() -> Config {
    Config {
        devices: Table::new(),
        keyboard: Table::new(),
        app_settings: AppSettings::default(),
    }
}

fn state_with(devices: Vec<DeviceRecord>, selected: Option<usize>) -> AppState {
    let mut state = AppState {
        config: empty_config(),
        devices,
        selected,
        current_app_bundle: None,
        gesture_sources: Vec::new(),
        button_bindings: Table::new(),
        gesture_bindings: Table::new(),
        keyboard_bindings: Table::new(),
        config_error: None,
    };
    state.button_bindings = state.bindings_for_current();
    state.gesture_bindings = state.current_gesture_maps();
    state
}

fn state() -> AppState {
    state_with(vec![DeviceRecord { persistent_key: Some(String::from(KEY)) }], Some(0))
}

fn named(name: &str) -> Action {
    Action::Named(String::from(name))
}

fn trigger(name: &str) -> KeyTrigger {
    KeyTrigger { name: String::from(name) }
}

fn single(config: &Config, button: ButtonId) -> Option<Action> {
    match config.stored(KEY, button) {
        Some(Binding::Single(action)) => Some(action.clone()),
        _ => None,
    }
}

#[test]
fn default_actions() {
    assert_eq!(default_binding(ButtonId::LeftClick), Action::LeftClick);
    assert_eq!(default_binding(ButtonId::Back), Action::BrowserBack);
    assert_eq!(default_binding(ButtonId::DpiToggle), Action::CycleDpiPresets);
    assert_eq!(default_binding(ButtonId::ThumbwheelScrollUp), Action::HorizontalScrollRight);
    assert_eq!(default_binding(ButtonId::ThumbwheelScrollDown), Action::HorizontalScrollLeft);
    assert_eq!(default_binding(ButtonId::Thumbwheel), Action::Nothing);
    assert_eq!(default_binding(ButtonId::KeyEmoji), Action::Nothing);
    assert_eq!(default_binding(ButtonId::HapticPanel), Action::ShowActionsRing);
    assert_eq!(default_gesture_binding(GestureDirection::Down), Action::ShowDesktop);
    assert_eq!(default_gesture_binding(GestureDirection::Left), Action::PrevTab);
}

#[test]
fn only_the_gesture_button_starts_with_a_gesture() {
    for button in ButtonId::all() {
        match default_binding_for(button) {
            Binding::Gesture(map) => {
                assert_eq!(button, ButtonId::GestureButton);
                for direction in GestureDirection::all() {
                    assert_eq!(map.get(&direction), Some(&default_gesture_binding(direction)));
                }
            }
            Binding::Single(action) => {
                assert_ne!(button, ButtonId::GestureButton);
                assert_eq!(action, default_binding(button));
            }
        }
    }
}

#[test]
fn table_is_a_map() {
    let mut table: Table<ButtonId, Action> = Table::new();
    table.insert(ButtonId::Back, Action::NextTab);
    table.insert(ButtonId::Forward, Action::PrevTab);
    table.insert(ButtonId::Back, Action::ShowDesktop);
    assert_eq!(table.get(&ButtonId::Back), Some(&Action::ShowDesktop));
    assert!(!table.contains_key(&ButtonId::LeftClick));
    let copy = table.copied();
    assert_eq!(table.remove(&ButtonId::Back), Some(Action::ShowDesktop));
    assert_eq!(table.remove(&ButtonId::Back), None);
    assert_eq!(copy.get(&ButtonId::Back), Some(&Action::ShowDesktop));
    let mut more: Table<ButtonId, Action> = Table::new();
    more.insert(ButtonId::Forward, Action::Nothing);
    more.insert(ButtonId::LeftClick, Action::LeftClick);
    table.extend(more);
    assert_eq!(table.get(&ButtonId::Forward), Some(&Action::Nothing));
    assert_eq!(table.get(&ButtonId::LeftClick), Some(&Action::LeftClick));
    assert_eq!(table.get(&ButtonId::Back), None);
}

#[test]
fn binding_is_shown_and_stored() {
    let mut state = state();
    assert_eq!(
        state.commit_binding(ButtonId::Back, named("paste")),
        Some(ConfigChange::Binding)
    );
    assert_eq!(state.button_bindings.get(&ButtonId::Back), Some(&named("paste")));
    assert_eq!(single(&state.config, ButtonId::Back), Some(named("paste")));
    assert_eq!(state.bindings_for_current().get(&ButtonId::Back), Some(&named("paste")));
    assert_eq!(
        state.bindings_for_current().get(&ButtonId::Forward),
        Some(&Action::BrowserForward)
    );
}

#[test]
fn binding_without_a_key_stays_in_memory() {
    for mut state in [
        state_with(vec![DeviceRecord { persistent_key: None }], Some(0)),
        state_with(Vec::new(), None),
        state_with(Vec::new(), Some(3)),
    ] {
        assert_eq!(state.commit_binding(ButtonId::Back, Action::NextTab), None);
        assert_eq!(state.button_bindings.get(&ButtonId::Back), Some(&Action::NextTab));
        assert!(state.config.devices.get(&String::from(KEY)).is_none());
    }
}

#[test]
fn thumbwheel_pair_is_two_bindings() {
    let pair = || ThumbwheelPair { backward: named("down"), forward: named("up") };
    let mut shown: Table<ButtonId, Action> = Table::new();
    let mut config = empty_config();
    assert!(!apply_thumbwheel_pair(&mut shown, &mut config, None, pair()));
    assert_eq!(shown.get(&ButtonId::ThumbwheelScrollDown), Some(&named("down")));
    assert_eq!(shown.get(&ButtonId::ThumbwheelScrollUp), Some(&named("up")));
    assert_eq!(single(&config, ButtonId::ThumbwheelScrollDown), None);
    assert!(apply_thumbwheel_pair(&mut shown, &mut config, Some(KEY), pair()));
    assert_eq!(single(&config, ButtonId::ThumbwheelScrollDown), Some(named("down")));
    assert_eq!(single(&config, ButtonId::ThumbwheelScrollUp), Some(named("up")));
}

#[test]
fn zoom_preset_also_switches_the_press_off() {
    let mut state = state();
    state.commit_binding(ButtonId::Thumbwheel, Action::AppExpose);
    let scroll = ThumbwheelPair {
        backward: Action::HorizontalScrollLeft,
        forward: Action::HorizontalScrollRight,
    };
    assert_eq!(
        state.commit_thumbwheel_preset(ThumbwheelPreset::Pair(scroll)),
        Some(ConfigChange::ThumbwheelBinding)
    );
    assert_eq!(state.button_bindings.get(&ButtonId::Thumbwheel), Some(&Action::AppExpose));

    let zoom = ThumbwheelPair { backward: named("zoom-out"), forward: named("zoom-in") };
    state.commit_thumbwheel_preset(ThumbwheelPreset::Zoom(zoom));
    assert_eq!(state.button_bindings.get(&ButtonId::Thumbwheel), Some(&Action::Nothing));
    assert_eq!(single(&state.config, ButtonId::Thumbwheel), Some(Action::Nothing));
    assert_eq!(single(&state.config, ButtonId::ThumbwheelScrollUp), Some(named("zoom-in")));
    assert_eq!(single(&state.config, ButtonId::ThumbwheelScrollDown), Some(named("zoom-out")));
}

#[test]
fn zoom_preset_without_a_key_stays_in_memory() {
    let mut state = state_with(Vec::new(), None);
    let zoom = ThumbwheelPair { backward: named("zoom-out"), forward: named("zoom-in") };
    assert_eq!(state.commit_thumbwheel_preset(ThumbwheelPreset::Zoom(zoom)), None);
    assert_eq!(state.button_bindings.get(&ButtonId::Thumbwheel), Some(&Action::Nothing));
    assert_eq!(single(&state.config, ButtonId::Thumbwheel), None);
}

#[test]
fn keyboard_keys_are_bound_and_freed_for_all_devices() {
    let mut state = state_with(Vec::new(), None);
    assert_eq!(
        state.commit_keyboard_binding(trigger("F5"), Some(Action::ShowDesktop)),
        ConfigChange::KeyboardBinding
    );
    assert_eq!(state.keyboard_bindings.get(&trigger("F5")), Some(&Action::ShowDesktop));
    assert_eq!(state.config.keyboard.get(&trigger("F5")), Some(&Action::ShowDesktop));
    state.commit_keyboard_binding(trigger("F5"), None);
    assert_eq!(state.keyboard_bindings.get(&trigger("F5")), None);
    assert_eq!(state.config.keyboard.get(&trigger("F5")), None);
}

#[test]
fn gesture_button_shows_its_default_map() {
    let state = state();
    let maps = state.current_gesture_maps();
    let map = maps.get(&ButtonId::GestureButton).expect("in gesture mode from the start");
    assert_eq!(map.get(&GestureDirection::Click), Some(&Action::AppExpose));
    assert!(maps.get(&ButtonId::Back).is_none());
    assert!(state_with(Vec::new(), None)
        .current_gesture_maps()
        .get(&ButtonId::GestureButton)
        .is_none());
}

#[test]
fn gesture_mode_is_switched_for_one_control() {
    let mut state = state();
    assert_eq!(state.commit_gesture_mode(ButtonId::Back, false), None);
    assert_eq!(
        state.commit_gesture_mode(ButtonId::Back, true),
        Some(ConfigChange::GestureMode)
    );
    assert_eq!(state.commit_gesture_mode(ButtonId::Back, true), None);
    assert!(state.config.is_gesture_mode(KEY, ButtonId::Back));
    assert!(!state.config.is_gesture_mode(KEY, ButtonId::Forward));
    let map = state.gesture_bindings.get(&ButtonId::Back).expect("shown");
    assert_eq!(map.get(&GestureDirection::Click), Some(&Action::BrowserBack));
    assert_eq!(map.get(&GestureDirection::Up), Some(&Action::MissionControl));
    assert_eq!(state.button_bindings.get(&ButtonId::Back), Some(&Action::BrowserBack));

    state.commit_gesture_mode(ButtonId::Back, false);
    assert!(!state.config.is_gesture_mode(KEY, ButtonId::Back));
    assert!(state.gesture_bindings.get(&ButtonId::Back).is_none());
    assert_eq!(single(&state.config, ButtonId::Back), Some(Action::BrowserBack));
}

#[test]
fn gesture_edit_changes_one_direction() {
    let mut state = state();
    assert_eq!(
        state.commit_gesture_binding(ButtonId::GestureButton, GestureDirection::Up, named("mute")),
        Some(ConfigChange::GestureBinding)
    );
    let check = |map: &GestureMap| {
        assert_eq!(map.get(&GestureDirection::Up), Some(&named("mute")));
        assert_eq!(map.get(&GestureDirection::Right), Some(&Action::NextTab));
        assert_eq!(map.get(&GestureDirection::Click), Some(&Action::AppExpose));
    };
    check(state.gesture_bindings.get(&ButtonId::GestureButton).unwrap());
    check(state.current_gesture_maps().get(&ButtonId::GestureButton).unwrap());
}

#[test]
fn gesture_edit_outside_gesture_mode_is_ignored() {
    let mut state = state();
    assert_eq!(
        state.commit_gesture_binding(ButtonId::Back, GestureDirection::Up, named("mute")),
        None
    );
    assert!(!state.config.is_gesture_mode(KEY, ButtonId::Back));
    assert!(state.gesture_bindings.get(&ButtonId::Back).is_none());

    let mut nothing = state_with(Vec::new(), None);
    assert_eq!(
        nothing.commit_gesture_binding(ButtonId::GestureButton, GestureDirection::Up, named("x")),
        None
    );
    assert_eq!(nothing.commit_gesture_mode(ButtonId::Back, true), None);
}

#[test]
fn device_maps_are_filled_and_pointer_maps_are_raw() {
    let mut config = empty_config();
    let sparse = || {
        let mut map: GestureMap = Table::new();
        map.insert(GestureDirection::Up, named("mute"));
        Binding::Gesture(map)
    };
    config.set_binding(KEY, ButtonId::GestureButton, sparse());
    config.set_binding(KEY, ButtonId::Back, sparse());
    config.set_binding(KEY, ButtonId::DpiToggle, sparse());
    let sources = vec![ButtonId::DpiToggle];

    let device = hidpp_gesture_maps_for(&config, Some(KEY), &sources);
    for button in [ButtonId::GestureButton, ButtonId::DpiToggle] {
        let map = device.get(&button).unwrap();
        assert_eq!(map.get(&GestureDirection::Up), Some(&named("mute")));
        assert_eq!(map.get(&GestureDirection::Down), Some(&Action::ShowDesktop));
    }
    assert!(device.get(&ButtonId::Back).is_none());

    let pointer = oshook_gestures_for(&config, Some(KEY), None, &sources);
    let map = pointer.get(&ButtonId::Back).unwrap();
    assert_eq!(map.get(&GestureDirection::Up), Some(&named("mute")));
    assert_eq!(map.get(&GestureDirection::Down), None);
    assert!(pointer.get(&ButtonId::DpiToggle).is_none());
    assert!(hidpp_gesture_maps_for(&config, None, &sources)
        .get(&ButtonId::GestureButton)
        .is_none());

    // A map without a click leaves a plain press without an action.
    let presses = bindings_for(&config, Some(KEY), None);
    assert_eq!(presses.get(&ButtonId::Back), Some(&Action::Nothing));
}

#[test]
fn bindings_of_the_application_come_first() {
    let mut overlay: Table<ButtonId, Binding> = Table::new();
    overlay.insert(ButtonId::Back, Binding::Single(named("undo")));
    let mut device = DeviceConfig::new();
    device.bindings.insert(ButtonId::Forward, Binding::Single(named("redo")));
    device.app_bindings.insert(String::from("org.editor"), overlay);
    let mut config = empty_config();
    config.devices.insert(String::from(KEY), device);

    let editor = bindings_for(&config, Some(KEY), Some("org.editor"));
    assert_eq!(editor.get(&ButtonId::Back), Some(&named("undo")));
    assert_eq!(editor.get(&ButtonId::Forward), Some(&named("redo")));
    let other = bindings_for(&config, Some(KEY), Some("org.other"));
    assert_eq!(other.get(&ButtonId::Back), Some(&Action::BrowserBack));
    let none = bindings_for(&config, None, Some("org.editor"));
    assert_eq!(none.get(&ButtonId::Forward), Some(&Action::BrowserForward));
}

#[test]
fn failed_write_puts_the_stored_state_back() {
    let mut state = state();
    state.commit_binding(ButtonId::Back, named("paste"));
    state.commit_keyboard_binding(trigger("F5"), Some(Action::NextTab));
    state.commit_gesture_mode(ButtonId::Forward, true);

    let mut stored = empty_config();
    stored.set_binding(KEY, ButtonId::Back, Binding::Single(named("copy")));
    state.restore_persisted(stored, String::from("disk full"));
    assert_eq!(state.button_bindings.get(&ButtonId::Back), Some(&named("copy")));
    assert_eq!(state.keyboard_bindings.get(&trigger("F5")), None);
    assert!(state.gesture_bindings.get(&ButtonId::Forward).is_none());
    assert_eq!(state.config_error.as_deref(), Some("disk full"));
}

#[test]
fn changes_have_labels() {
    assert_eq!(ConfigChange::Binding.label(), "binding");
    assert_eq!(ConfigChange::ThumbwheelBinding.label(), "thumb-wheel binding");
    assert_eq!(ConfigChange::KeyboardBinding.label(), "keyboard binding");
    assert_eq!(ConfigChange::GestureMode.label(), "gesture-mode change");
    assert_eq!(ConfigChange::GestureBinding.label(), "gesture binding");
}

#[test]
fn table_lists_every_entry_once() {
    let mut table: Table<ButtonId, Action> = Table::new();
    assert!(table.entries().is_empty());
    table.insert(ButtonId::Back, Action::NextTab);
    table.insert(ButtonId::Forward, Action::PrevTab);
    table.insert(ButtonId::Back, Action::AppExpose);
    let mut listed: Vec<(ButtonId, Action)> =
        table.entries().iter().map(|(b, a)| (*b, a.clone())).collect();
    listed.sort_by_key(|(button, _)| *button);
    assert_eq!(
        listed,
        vec![(ButtonId::Back, Action::AppExpose), (ButtonId::Forward, Action::PrevTab)]
    );
}

#[test]
fn written_change_is_picked_up() {
    let mut state = state();
    state.commit_binding(ButtonId::Back, named("paste"));
    assert!(state.after_write(WriteOutcome::Written));
    assert_eq!(single(&state.config, ButtonId::Back), Some(named("paste")));
    assert_eq!(state.button_bindings.get(&ButtonId::Back), Some(&named("paste")));
    assert_eq!(state.config_error, None);
}

#[test]
fn unwritten_change_is_given_up() {
    let mut state = state();
    state.commit_binding(ButtonId::Back, named("paste"));
    state.commit_keyboard_binding(trigger("F5"), Some(Action::ShowDesktop));
    let mut stored = Config::ephemeral();
    stored.set_binding(KEY, ButtonId::Forward, Binding::Single(named("copy")));
    let failed = WriteOutcome::Failed { stored, error: String::from("disk full") };
    assert!(!state.after_write(failed));
    assert_eq!(single(&state.config, ButtonId::Back), None);
    assert_eq!(single(&state.config, ButtonId::Forward), Some(named("copy")));
    assert_eq!(state.button_bindings.get(&ButtonId::Back), Some(&Action::BrowserBack));
    assert_eq!(state.button_bindings.get(&ButtonId::Forward), Some(&named("copy")));
    assert!(state.keyboard_bindings.entries().is_empty());
    assert_eq!(state.config_error, Some(String::from("disk full")));
}

#[test]
fn a_file_that_was_read_is_written() {
    let mut config = Config::ephemeral();
    config.set_binding(KEY, ButtonId::Back, Binding::Single(named("paste")));
    let (config, persistence) = start_with::<u8>(Ok((config, 9)));
    assert_eq!(single(&config, ButtonId::Back), Some(named("paste")));
    assert!(matches!(persistence, ConfigPersistence::UserFile(9)));
    assert!(persistence.writes(true));
    assert!(!persistence.writes(false));
}

#[test]
fn a_file_that_was_not_read_is_left_alone() {
    let (config, persistence) = start_with::<u8>(Err(String::from("no table")));
    assert!(config.devices.entries().is_empty() && config.keyboard.entries().is_empty());
    assert!(config.app_settings == AppSettings::default());
    assert!(matches!(&persistence, ConfigPersistence::ReadOnly(reason) if reason == "no table"));
    assert!(!persistence.writes(true));
    assert!(!persistence.writes(false));
}
