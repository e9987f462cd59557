//! What the stored values mean, and what a change of one leaves alone.

#![allow(unused_imports)]

use crate::binding::action::Action;
use crate::binding::button::ButtonId;
use crate::binding::defaults::default_binding_model;
use crate::binding::value::BindingModel;
use crate::color::Rgb;
use crate::config::persistence::{started_with, ConfigPersistence};
use crate::config::settings::{
    clamp_thumbwheel_sensitivity, default_light_brightness, default_lighting_brightness,
    default_lighting_color, default_lighting_enabled, default_thumbwheel_sensitivity, default_true,
    gesture_owner_model, in_thumbwheel_range, is_false, nearest_sensitivity,
    validate_auto_disengage, validate_brightness, validate_optional_thumbwheel_sensitivity,
    validate_thumbwheel_sensitivity, AppSettings, Appearance, AssetSourcePreference, GestureOwner,
    LightSettings, Lighting, SettingError, SmartShift, WheelMode,
    DEFAULT_THUMBWHEEL_SENSITIVITY, MAX_BRIGHTNESS, MAX_THUMBWHEEL_SENSITIVITY,
    MIN_THUMBWHEEL_SENSITIVITY, SMARTSHIFT_AUTO_DISENGAGE_DEFAULT, SMARTSHIFT_MIN_AUTO_DISENGAGE,
    THUMBWHEEL_SENSITIVITY_ONE_X,
};
use crate::config::store::{Config, ConfigModel, DeviceConfig, DeviceModel, KeyTrigger};
use crate::text::{decimal, digits};
use vstd::prelude::*;

verus! {

/// A binding is stored for a control exactly where the device is there and has
/// it among its own bindings.
pub proof fn stored_is_what_the_device_holds(
    config: ConfigModel,
    key: Seq<char>,
    button: ButtonId,
    binding: BindingModel,
)
    ensures
        config.stored(key, button) == Some(binding) <==> config.devices.contains_key(key)
            && config.devices[key].bindings.contains_key(button)
            && config.devices[key].bindings[button] == binding,
        !config.devices.contains_key(key) ==> config.stored(key, button) is None,
{
}

/// A binding is stored for a control in an application exactly where the device
/// has it among those of that application.
pub proof fn stored_for_app_is_what_the_application_holds(
    config: ConfigModel,
    key: Seq<char>,
    app: Seq<char>,
    button: ButtonId,
    binding: BindingModel,
)
    ensures
        config.stored_for_app(key, app, button) == Some(binding)
            <==> config.devices.contains_key(key)
            && config.devices[key].app_bindings.contains_key(app)
            && config.devices[key].app_bindings[app].contains_key(button)
            && config.devices[key].app_bindings[app][button] == binding,
{
}

/// The binding of a control is the stored one and, only where there is none,
/// its default. Its mode is that of this binding.
pub proof fn a_stored_binding_comes_before_the_default(
    config: ConfigModel,
    key: Seq<char>,
    button: ButtonId,
)
    ensures
        config.devices.contains_key(key) && config.devices[key].bindings.contains_key(button)
            ==> config.binding(key, button) == config.devices[key].bindings[button],
        !(config.devices.contains_key(key) && config.devices[key].bindings.contains_key(button))
            ==> config.binding(key, button) == default_binding_model(button),
        config.gesture_mode(key, button) <==> config.binding(key, button) is Gesture,
{
}

/// Storing one binding changes that one entry: every other entry of the device,
/// its entries for applications, every other device, the keyboard and the
/// preferences stay as they were.
pub proof fn storing_changes_one_entry(
    config: ConfigModel,
    key: Seq<char>,
    button: ButtonId,
    binding: BindingModel,
    other_key: Seq<char>,
    other: ButtonId,
)
    ensures
        ({
            let after = config.with_binding(key, button, binding);
            &&& after.devices.contains_key(key)
            &&& after.devices[key].bindings.contains_key(button)
            &&& after.devices[key].bindings[button] == binding
            &&& other != button && config.devices.contains_key(key)
                ==> after.devices[key].bindings.contains_key(other)
                == config.devices[key].bindings.contains_key(other)
                && after.devices[key].bindings[other] == config.devices[key].bindings[other]
            &&& other != button && !config.devices.contains_key(key)
                ==> !after.devices[key].bindings.contains_key(other)
            &&& config.devices.contains_key(key) ==> after.devices[key].app_bindings
                == config.devices[key].app_bindings
            &&& !config.devices.contains_key(key) ==> after.devices[key].app_bindings
                == Map::<Seq<char>, Map<ButtonId, BindingModel>>::empty()
            &&& other_key != key ==> after.devices.contains_key(other_key)
                == config.devices.contains_key(other_key) && after.devices[other_key]
                == config.devices[other_key]
            &&& after.keyboard == config.keyboard
            &&& after.app_settings == config.app_settings
        }),
{
}

/// The last of two bindings stored for a control counts; two that are stored
/// for different controls may be stored in either order.
pub proof fn stored_bindings_do_not_interfere(
    config: ConfigModel,
    key: Seq<char>,
    button: ButtonId,
    first: BindingModel,
    other_key: Seq<char>,
    other: ButtonId,
    second: BindingModel,
)
    ensures
        config.with_binding(key, button, first).with_binding(key, button, second).stored(
            key,
            button,
        ) == Some(second),
        key != other_key || button != other ==> config.with_binding(
            key,
            button,
            first,
        ).with_binding(other_key, other, second).stored(key, button) == Some(first),
        key != other_key || button != other ==> config.with_binding(
            other_key,
            other,
            second,
        ).with_binding(key, button, first).stored(other_key, other) == Some(second),
{
}

/// Binding one key of the keyboard puts its action under that key, freeing it
/// leaves nothing there, and either way every other key, every device and the
/// preferences stay as they were.
pub proof fn a_key_of_the_keyboard_is_bound_alone(
    config: ConfigModel,
    trigger: Seq<char>,
    action: Action,
    other: Seq<char>,
)
    ensures
        ({
            let bound = config.with_keyboard_binding(trigger, Some(action));
            let freed = config.with_keyboard_binding(trigger, None);
            &&& bound.keyboard.contains_key(trigger)
            &&& bound.keyboard[trigger] == action
            &&& !freed.keyboard.contains_key(trigger)
            &&& other != trigger ==> {
                &&& bound.keyboard.contains_key(other) == config.keyboard.contains_key(other)
                &&& freed.keyboard.contains_key(other) == config.keyboard.contains_key(other)
                &&& config.keyboard.contains_key(other) ==> bound.keyboard[other]
                    == config.keyboard[other] && freed.keyboard[other] == config.keyboard[other]
            }
            &&& bound.devices == config.devices && freed.devices == config.devices
            &&& bound.app_settings == config.app_settings
            &&& freed.app_settings == config.app_settings
        }),
{
}

/// Two keys that are bound one after the other are both bound.
pub proof fn two_keys_of_the_keyboard_are_both_bound(
    config: ConfigModel,
    first: Seq<char>,
    a: Action,
    second: Seq<char>,
    b: Action,
)
    requires
        first != second,
    ensures
        ({
            let after = config.with_keyboard_binding(first, Some(a)).with_keyboard_binding(
                second,
                Some(b),
            );
            &&& after.keyboard.contains_key(first) && after.keyboard[first] == a
            &&& after.keyboard.contains_key(second) && after.keyboard[second] == b
        }),
{
}

/// In an empty configuration nothing is stored for anything, and all
/// preferences are those out of the box.
pub proof fn an_empty_configuration_holds_nothing(
    key: Seq<char>,
    app: Seq<char>,
    button: ButtonId,
)
    ensures
        !ConfigModel::ephemeral().devices.contains_key(key),
        !ConfigModel::ephemeral().keyboard.contains_key(key),
        ConfigModel::ephemeral().stored(key, button) is None,
        ConfigModel::ephemeral().stored_for_app(key, app, button) is None,
        ConfigModel::ephemeral().binding(key, button) == default_binding_model(button),
        ConfigModel::ephemeral().app_settings == AppSettings::default_model(),
        !DeviceModel::empty().bindings.contains_key(button),
        !DeviceModel::empty().app_bindings.contains_key(app),
{
}

/// A configuration stands for what its tables hold, and a key of the keyboard
/// for its name.
pub proof fn a_configuration_stands_for_its_tables(
    config: Config,
    device: DeviceConfig,
    trigger: KeyTrigger,
)
    ensures
        config@.devices == config.devices@,
        config@.keyboard == config.keyboard@,
        config@.app_settings == config.app_settings,
        device@.bindings == device.bindings@,
        device@.app_bindings == device.app_bindings@,
        trigger@ == trigger.name@,
{
}

/// A file that was read is what the program starts with and what is written;
/// the program starts empty after one that could not be read, and keeps the
/// reason.
pub proof fn the_start_follows_the_file<F>(
    config: Config,
    file: F,
    reason: String,
    start: (Config, ConfigPersistence<F>),
)
    ensures
        started_with(Ok((config, file)), start) <==> start.0 == config && start.1
            == ConfigPersistence::UserFile(file),
        started_with::<F>(Err(reason), start) <==> {
            &&& forall|k: Seq<char>| !(#[trigger] start.0@.devices.contains_key(k))
            &&& forall|k: Seq<char>| !(#[trigger] start.0@.keyboard.contains_key(k))
            &&& start.0@.app_settings == AppSettings::default_model()
            &&& start.1 == ConfigPersistence::<F>::ReadOnly(reason)
        },
{
    if (forall|k: Seq<char>| !(#[trigger] start.0@.devices.contains_key(k))) && (forall|
        k: Seq<char>,
    | !(#[trigger] start.0@.keyboard.contains_key(k))) && start.0@.app_settings
        == AppSettings::default_model() {
        assert(start.0@.devices =~= Map::empty());
        assert(start.0@.keyboard =~= Map::empty());
        assert(start.0@ =~= ConfigModel::ephemeral());
    }
}

/// A change is written exactly where there is one and the file was read.
pub proof fn changes_of_a_read_file_are_written<F>(file: F, reason: String, changed: bool)
    ensures
        ConfigPersistence::UserFile(file).write_due(changed) == changed,
        !ConfigPersistence::<F>::ReadOnly(reason).write_due(changed),
{
}

/// The sensitivities that can be selected are one to a hundred; every other one
/// is moved to the nearer end.
pub proof fn sensitivities_are_one_to_a_hundred(value: int)
    ensures
        in_thumbwheel_range(value) <==> 1 <= value <= 100,
        value < 1 ==> nearest_sensitivity(value) == 1,
        1 <= value <= 100 ==> nearest_sensitivity(value) == value,
        value > 100 ==> nearest_sensitivity(value) == 100,
{
}

/// A larger sensitivity is never moved below a smaller one, and what was moved
/// once is not moved again.
pub proof fn moving_sensitivities_keeps_their_order(a: int, b: int)
    requires
        a <= b,
    ensures
        nearest_sensitivity(a) <= nearest_sensitivity(b),
        nearest_sensitivity(nearest_sensitivity(a)) == nearest_sensitivity(a),
{
}

/// The ranges of the stored values: a percentage, a threshold of at least two
/// turns per second, and sensitivities whose default lies above native speed.
pub proof fn ranges_of_stored_values(shift: SmartShift, light: LightSettings, lighting: Lighting)
    ensures
        MAX_BRIGHTNESS == 100,
        SMARTSHIFT_MIN_AUTO_DISENGAGE == 8,
        SMARTSHIFT_AUTO_DISENGAGE_DEFAULT == 16,
        MIN_THUMBWHEEL_SENSITIVITY == 1,
        MAX_THUMBWHEEL_SENSITIVITY == 100,
        DEFAULT_THUMBWHEEL_SENSITIVITY == 18,
        THUMBWHEEL_SENSITIVITY_ONE_X == 14,
        shift.valid() <==> shift.auto_disengage >= 8,
        light.valid() <==> light.brightness_percent <= 100,
        lighting.valid() <==> lighting.brightness <= 100,
{
}

/// Out of the box nothing reaches for the network on its own but the images of
/// devices, nothing starts at login, the icon is shown, buttons can be
/// remapped, and everything else follows the system or the theme.
pub proof fn preferences_out_of_the_box(settings: AppSettings)
    ensures
        settings == AppSettings::default_model() <==> {
            &&& !settings.launch_at_login
            &&& !settings.check_for_updates
            &&& !settings.auto_install_updates
            &&& !settings.update_prompt_seen
            &&& settings.show_in_menu_bar
            &&& settings.capture_mouse_events
            &&& settings.auto_download_assets
            &&& settings.asset_source == AssetSourcePreference::Automatic
            &&& settings.language is None
            &&& settings.thumbwheel_sensitivity == 18
            &&& settings.appearance == Appearance::System
            &&& settings.theme_light is None
            &&& settings.theme_dark is None
            &&& settings.ui_radius is None
        },
        settings.valid() <==> 1 <= settings.thumbwheel_sensitivity <= 100,
{
}

/// Out of the box the lighting of a device and a standalone light are on, at
/// full brightness; the lighting is white, and a light follows no camera.
pub proof fn lights_out_of_the_box(lighting: Lighting, light: LightSettings)
    ensures
        lighting == Lighting::default_model() <==> lighting.enabled && lighting.brightness == 100
            && lighting.color.r == 255 && lighting.color.g == 255 && lighting.color.b == 255,
        light == LightSettings::default_model() <==> light.enabled && !light.auto_camera
            && light.brightness_percent == 100 && light.temperature_kelvin is None
            && light.color is None,
{
}

/// A message names the setting and its range, and ends with the value that was
/// refused.
pub proof fn a_message_names_the_range_and_the_value(sensitivity: i32, percent: u8, threshold: u8)
    ensures
        SettingError::ThumbwheelSensitivity(sensitivity).message_model()
            == "thumbwheel sensitivity must be between 1 and 100, got "@ + decimal(
            sensitivity as int,
        ),
        SettingError::Brightness(percent).message_model()
            == "brightness must be between 0 and 100, got "@ + decimal(percent as int),
        SettingError::AutoDisengage(threshold).message_model()
            == "SmartShift auto_disengage must be between 8 and 255, got "@ + decimal(
            threshold as int,
        ),
{
    reveal_strlit("thumbwheel sensitivity must be between 1 and 100, got ");
    reveal_strlit("thumbwheel sensitivity must be between ");
    reveal_strlit(" and ");
    reveal_strlit(", got ");
    reveal_strlit("SmartShift auto_disengage must be between 8 and 255, got ");
    reveal_strlit("SmartShift auto_disengage must be between ");
    reveal_strlit(" and 255, got ");
    reveal_with_fuel(digits, 4);
    assert(decimal(1) =~= seq!['1']);
    assert(decimal(8) =~= seq!['8']);
    assert(decimal(100) =~= seq!['1', '0', '0']);
    assert(SettingError::ThumbwheelSensitivity(sensitivity).message_model()
        =~= "thumbwheel sensitivity must be between 1 and 100, got "@ + decimal(
        sensitivity as int,
    ));
    assert(SettingError::AutoDisengage(threshold).message_model()
        =~= "SmartShift auto_disengage must be between 8 and 255, got "@ + decimal(
        threshold as int,
    ));
}

/// The stored owner `Off` means no control, and the name of a control means
/// that control.
pub proof fn an_owner_is_off_or_the_name_of_a_control(text: Seq<char>, button: ButtonId)
    ensures
        gesture_owner_model(text, GestureOwner::Off) <==> text == "Off"@,
        gesture_owner_model(text, GestureOwner::Button(button)) <==> text == button.name_model(),
{
}

/// A stored value is taken over as it is exactly where it is in its range, and
/// otherwise refused with itself as the reason. One that is absent is in order.
pub proof fn a_value_in_its_range_is_taken_over(
    sensitivity: i32,
    checked: Result<i32, SettingError>,
    percent: u8,
    checked_percent: Result<u8, SettingError>,
    threshold: u8,
    checked_threshold: Result<u8, SettingError>,
)
    requires
        call_ensures(validate_thumbwheel_sensitivity, (sensitivity,), checked),
        call_ensures(validate_brightness, (percent,), checked_percent),
        call_ensures(validate_auto_disengage, (threshold,), checked_threshold),
    ensures
        1 <= sensitivity <= 100 ==> checked == Ok::<i32, SettingError>(sensitivity),
        !(1 <= sensitivity <= 100) ==> checked == Err::<i32, SettingError>(
            SettingError::ThumbwheelSensitivity(sensitivity),
        ),
        percent <= 100 ==> checked_percent == Ok::<u8, SettingError>(percent),
        percent > 100 ==> checked_percent == Err::<u8, SettingError>(
            SettingError::Brightness(percent),
        ),
        threshold >= 8 ==> checked_threshold == Ok::<u8, SettingError>(threshold),
        threshold < 8 ==> checked_threshold == Err::<u8, SettingError>(
            SettingError::AutoDisengage(threshold),
        ),
{
}

/// A sensitivity that may be absent is checked like one that is there.
pub proof fn an_absent_sensitivity_is_in_order(
    value: Option<i32>,
    checked: Result<Option<i32>, SettingError>,
    plain: Result<i32, SettingError>,
)
    requires
        call_ensures(validate_optional_thumbwheel_sensitivity, (value,), checked),
        value is Some ==> call_ensures(validate_thumbwheel_sensitivity, (value->0,), plain),
    ensures
        value is None ==> checked == Ok::<Option<i32>, SettingError>(None),
        value is Some ==> (checked is Ok <==> plain is Ok),
        value is Some && plain is Ok ==> checked == Ok::<Option<i32>, SettingError>(value),
        value is Some && plain is Err ==> checked is Err && checked->Err_0 == plain->Err_0,
{
}

/// A sensitivity that was moved into its range is one that can be stored, and
/// one that can be stored is not moved.
pub proof fn a_moved_sensitivity_can_be_stored(
    value: i32,
    clamped: i32,
    checked: Result<i32, SettingError>,
)
    requires
        call_ensures(clamp_thumbwheel_sensitivity, (value,), clamped),
        call_ensures(validate_thumbwheel_sensitivity, (clamped,), checked),
    ensures
        checked == Ok::<i32, SettingError>(clamped),
        1 <= value <= 100 ==> clamped == value,
        value > 100 ==> clamped == 100,
        value < 1 ==> clamped == 1,
{
}

/// The settings of a wheel are taken over as stored exactly where its threshold
/// is not below the lowest one; the torque is taken over in any case.
pub proof fn a_wheel_needs_its_lowest_threshold(
    mode: WheelMode,
    threshold: u8,
    torque: u8,
    loaded: Result<SmartShift, SettingError>,
)
    requires
        call_ensures(SmartShift::from_stored, (mode, threshold, torque), loaded),
    ensures
        threshold >= 8 ==> loaded is Ok && loaded->Ok_0.mode == mode
            && loaded->Ok_0.auto_disengage == threshold && loaded->Ok_0.tunable_torque == torque,
        threshold < 8 ==> loaded is Err && loaded->Err_0 == SettingError::AutoDisengage(threshold),
{
}

/// New settings of a light have the power and the temperature that were asked
/// for and the brightness up to a hundred percent; they follow no camera and
/// have no colour.
pub proof fn a_new_light_has_what_was_asked_for(
    enabled: bool,
    percent: u8,
    kelvin: Option<u16>,
    light: LightSettings,
)
    requires
        call_ensures(LightSettings::new, (enabled, percent, kelvin), light),
    ensures
        light.enabled == enabled,
        light.temperature_kelvin == kelvin,
        percent <= 100 ==> light.brightness_percent == percent,
        percent > 100 ==> light.brightness_percent == 100,
        !light.auto_camera,
        light.color is None,
{
}

/// What a file does not hold is filled in with what is there out of the box.
pub proof fn gaps_of_a_file_are_filled_from_the_defaults(
    on: bool,
    sensitivity: i32,
    light_percent: u8,
    lit: bool,
    color: Rgb,
    percent: u8,
)
    requires
        call_ensures(default_true, (), on),
        call_ensures(default_thumbwheel_sensitivity, (), sensitivity),
        call_ensures(default_light_brightness, (), light_percent),
        call_ensures(default_lighting_enabled, (), lit),
        call_ensures(default_lighting_color, (), color),
        call_ensures(default_lighting_brightness, (), percent),
    ensures
        on == AppSettings::default_model().show_in_menu_bar,
        on == AppSettings::default_model().capture_mouse_events,
        on == AppSettings::default_model().auto_download_assets,
        on == LightSettings::default_model().enabled,
        on,
        sensitivity == 18,
        light_percent == LightSettings::default_model().brightness_percent,
        light_percent == 100,
        lit,
        color.r == 255 && color.g == 255 && color.b == 255,
        percent == 100,
{
}

/// Preferences count as untouched exactly where they are those out of the box,
/// and a flag need not be stored exactly where it is off.
pub proof fn untouched_preferences_need_not_be_stored(
    settings: AppSettings,
    untouched: bool,
    flag: bool,
    skipped: bool,
)
    requires
        call_ensures(AppSettings::is_default, (&settings,), untouched),
        call_ensures(is_false, (&flag,), skipped),
    ensures
        untouched <==> settings == AppSettings::default_model(),
        settings.update_prompt_seen || settings.launch_at_login || settings.check_for_updates
            ==> !untouched,
        skipped == !flag,
{
}

} // verus!
