//! App-wide and per-device value settings, their defaults, and the rules that
//! a persisted value has to meet.

use crate::binding::button::ButtonId;
use crate::color::Rgb;
use crate::text::{append_decimal, same_text};
#[allow(unused_imports)]
use crate::text::decimal;
use std::collections::BTreeMap;
use vstd::prelude::*;
use vstd::string::*;

verus! {

/// Light or dark appearance. `System` follows the operating system; the other
/// two force a mode.
#[derive(Debug, Clone, Copy, Default, PartialEq, Eq, Structural)]
pub enum Appearance {
    /// Follow the operating system.
    #[default]
    System,
    /// Always the light variant of the theme.
    Light,
    /// Always the dark variant of the theme.
    Dark,
}

/// Where device images are fetched from.
#[derive(Debug, Clone, Copy, Default, PartialEq, Eq, Structural)]
pub enum AssetSourcePreference {
    /// The first mirror that answers.
    #[default]
    Automatic,
    /// The official endpoint.
    OpenLogi,
    /// The endpoint on Cloudflare's network.
    Cloudflare,
    /// The packages on Fastly's network.
    Fastly,
}

/// Preferences that belong to no particular device.
#[derive(Debug, Clone, PartialEq, Eq)]
pub struct AppSettings {
    /// Start the app on login.
    pub launch_at_login: bool,
    /// Ask once per launch whether a newer version exists. Off by default.
    pub check_for_updates: bool,
    /// Download and stage a newer version that a check found. Off by default.
    pub auto_install_updates: bool,
    /// The question whether to check for updates has been answered.
    pub update_prompt_seen: bool,
    /// Show an icon in the menu bar or in the notification area.
    pub show_in_menu_bar: bool,
    /// Intercept mouse events so that buttons can be remapped.
    pub capture_mouse_events: bool,
    /// Download device images when a device appears.
    pub auto_download_assets: bool,
    /// Where device images are fetched from.
    pub asset_source: AssetSourcePreference,
    /// Locale code of the interface; none follows the system.
    pub language: Option<String>,
    /// Thumb-wheel responsiveness, from [`MIN_THUMBWHEEL_SENSITIVITY`] to
    /// [`MAX_THUMBWHEEL_SENSITIVITY`].
    pub thumbwheel_sensitivity: i32,
    /// Light or dark appearance.
    pub appearance: Appearance,
    /// Theme in light mode; none is the built-in one.
    pub theme_light: Option<String>,
    /// Theme in dark mode; none is the built-in one.
    pub theme_dark: Option<String>,
    /// Corner radius in pixels; none keeps that of the theme.
    pub ui_radius: Option<u8>,
}

/// The sensitivity at which the thumb wheel runs at its native speed.
pub const THUMBWHEEL_SENSITIVITY_ONE_X: i32 = 14;

/// The sensitivity out of the box.
pub const DEFAULT_THUMBWHEEL_SENSITIVITY: i32 = 18;

/// The lowest selectable sensitivity.
pub const MIN_THUMBWHEEL_SENSITIVITY: i32 = 1;

/// The highest selectable sensitivity.
pub const MAX_THUMBWHEEL_SENSITIVITY: i32 = 100;

/// The highest brightness, in percent.
pub const MAX_BRIGHTNESS: u8 = 100;

/// The threshold at which a ratchet wheel releases out of the box, in quarter
/// turns per second.
pub const SMARTSHIFT_AUTO_DISENGAGE_DEFAULT: u8 = 16;

/// The lowest threshold that is stored or applied. Below it the wheel would
/// release at everyday speeds, and zero tells the firmware to change nothing.
pub const SMARTSHIFT_MIN_AUTO_DISENGAGE: u8 = 8;

/// A persisted value outside its range.
#[derive(Debug, Clone, Copy, PartialEq, Eq, Structural)]
pub enum SettingError {
    /// See [`validate_thumbwheel_sensitivity`].
    ThumbwheelSensitivity(i32),
    /// See [`validate_brightness`].
    Brightness(u8),
    /// See [`validate_auto_disengage`].
    AutoDisengage(u8),
}

impl SettingError {
    /// What is wrong, for the user.
    pub open spec fn message_model(self) -> Seq<char> {
        match self {
            SettingError::ThumbwheelSensitivity(value) => {
                "thumbwheel sensitivity must be between "@ + decimal(
                    MIN_THUMBWHEEL_SENSITIVITY as int,
                ) + " and "@ + decimal(MAX_THUMBWHEEL_SENSITIVITY as int) + ", got "@ + decimal(
                    value as int,
                )
            },
            SettingError::Brightness(value) => "brightness must be between 0 and 100, got "@
                + decimal(value as int),
            SettingError::AutoDisengage(value) => {
                "SmartShift auto_disengage must be between "@ + decimal(
                    SMARTSHIFT_MIN_AUTO_DISENGAGE as int,
                ) + " and 255, got "@ + decimal(value as int)
            },
        }
    }

    /// What is wrong, for the user.
    pub fn message(&self) -> (text: String)
        ensures
            text@ == self.message_model(),
    {
        let mut text: String = String::new();
        match self {
            SettingError::ThumbwheelSensitivity(value) => {
                text.append("thumbwheel sensitivity must be between ");
                append_decimal(&mut text, MIN_THUMBWHEEL_SENSITIVITY);
                text.append(" and ");
                append_decimal(&mut text, MAX_THUMBWHEEL_SENSITIVITY);
                text.append(", got ");
                append_decimal(&mut text, *value);
            },
            SettingError::Brightness(value) => {
                text.append("brightness must be between 0 and 100, got ");
                append_decimal(&mut text, *value as i32);
            },
            SettingError::AutoDisengage(value) => {
                text.append("SmartShift auto_disengage must be between ");
                append_decimal(&mut text, SMARTSHIFT_MIN_AUTO_DISENGAGE as i32);
                text.append(" and 255, got ");
                append_decimal(&mut text, *value as i32);
            },
        }
        assert(text@ =~= self.message_model());
        text
    }
}

/// `value` is a sensitivity that can be selected and stored.
pub open spec fn in_thumbwheel_range(value: int) -> bool {
    MIN_THUMBWHEEL_SENSITIVITY <= value <= MAX_THUMBWHEEL_SENSITIVITY
}

/// The selectable sensitivity nearest to `value`.
pub open spec fn nearest_sensitivity(value: int) -> int {
    if value < MIN_THUMBWHEEL_SENSITIVITY {
        MIN_THUMBWHEEL_SENSITIVITY as int
    } else if value > MAX_THUMBWHEEL_SENSITIVITY {
        MAX_THUMBWHEEL_SENSITIVITY as int
    } else {
        value
    }
}

/// The selectable sensitivity nearest to `value`.
#[must_use]
pub fn clamp_thumbwheel_sensitivity(value: i32) -> (clamped: i32)
    ensures
        clamped == nearest_sensitivity(value as int),
        in_thumbwheel_range(clamped as int),
{
    if value < MIN_THUMBWHEEL_SENSITIVITY {
        MIN_THUMBWHEEL_SENSITIVITY
    } else if value > MAX_THUMBWHEEL_SENSITIVITY {
        MAX_THUMBWHEEL_SENSITIVITY
    } else {
        value
    }
}

/// A clamped sensitivity can be stored; it is the value itself where that can
/// be stored, and otherwise no other storable value is nearer to it.
pub proof fn clamped_sensitivity_is_nearest(value: int, other: int)
    requires
        in_thumbwheel_range(other),
    ensures
        in_thumbwheel_range(nearest_sensitivity(value)),
        in_thumbwheel_range(value) ==> nearest_sensitivity(value) == value,
        value <= other ==> value <= nearest_sensitivity(value) <= other,
        value >= other ==> other <= nearest_sensitivity(value) <= value,
{
}

impl AppSettings {
    /// The preferences out of the box.
    pub open spec fn default_model() -> AppSettings {
        AppSettings {
            launch_at_login: false,
            check_for_updates: false,
            auto_install_updates: false,
            update_prompt_seen: false,
            show_in_menu_bar: true,
            capture_mouse_events: true,
            auto_download_assets: true,
            asset_source: AssetSourcePreference::Automatic,
            language: None,
            thumbwheel_sensitivity: DEFAULT_THUMBWHEEL_SENSITIVITY,
            appearance: Appearance::System,
            theme_light: None,
            theme_dark: None,
            ui_radius: None,
        }
    }

    /// Every stored value is in its range.
    pub open spec fn valid(self) -> bool {
        in_thumbwheel_range(self.thumbwheel_sensitivity as int)
    }

    /// Whether nothing differs from the preferences out of the box.
    #[must_use]
    pub fn is_default(&self) -> (same: bool)
        ensures
            same == (*self == Self::default_model()),
    {
        !self.launch_at_login && !self.check_for_updates && !self.auto_install_updates
            && !self.update_prompt_seen && self.show_in_menu_bar && self.capture_mouse_events
            && self.auto_download_assets && self.asset_source == AssetSourcePreference::Automatic
            && self.language.is_none() && self.thumbwheel_sensitivity
            == DEFAULT_THUMBWHEEL_SENSITIVITY && self.appearance == Appearance::System
            && self.theme_light.is_none() && self.theme_dark.is_none() && self.ui_radius.is_none()
    }
}

impl Default for AppSettings {
    fn default() -> (settings: AppSettings)
        ensures
            settings == AppSettings::default_model(),
            settings.valid(),
    {
        AppSettings {
            launch_at_login: false,
            check_for_updates: false,
            auto_install_updates: false,
            update_prompt_seen: false,
            show_in_menu_bar: true,
            capture_mouse_events: true,
            auto_download_assets: true,
            asset_source: AssetSourcePreference::Automatic,
            language: None,
            thumbwheel_sensitivity: DEFAULT_THUMBWHEEL_SENSITIVITY,
            appearance: Appearance::System,
            theme_light: None,
            theme_dark: None,
            ui_radius: None,
        }
    }
}

/// The default of the preferences that are on out of the box, for files that
/// do not hold them.
pub fn default_true() -> (on: bool)
    ensures
        on,
{
    true
}

/// The default of [`AppSettings::thumbwheel_sensitivity`], for files that do
/// not hold it.
pub fn default_thumbwheel_sensitivity() -> (value: i32)
    ensures
        value == AppSettings::default_model().thumbwheel_sensitivity,
{
    DEFAULT_THUMBWHEEL_SENSITIVITY
}

/// Accepts a stored sensitivity exactly when it could have been selected.
pub fn validate_thumbwheel_sensitivity(value: i32) -> (checked: Result<i32, SettingError>)
    ensures
        checked == if in_thumbwheel_range(value as int) {
            Ok::<i32, SettingError>(value)
        } else {
            Err(SettingError::ThumbwheelSensitivity(value))
        },
{
    if MIN_THUMBWHEEL_SENSITIVITY <= value && value <= MAX_THUMBWHEEL_SENSITIVITY {
        Ok(value)
    } else {
        Err(SettingError::ThumbwheelSensitivity(value))
    }
}

/// Accepts a stored sensitivity that may be absent.
pub fn validate_optional_thumbwheel_sensitivity(value: Option<i32>) -> (checked: Result<
    Option<i32>,
    SettingError,
>)
    ensures
        checked == match value {
            None => Ok::<Option<i32>, SettingError>(None),
            Some(v) => if in_thumbwheel_range(v as int) {
                Ok(Some(v))
            } else {
                Err(SettingError::ThumbwheelSensitivity(v))
            },
        },
{
    match value {
        None => Ok(None),
        Some(v) => match validate_thumbwheel_sensitivity(v) {
            Ok(v) => Ok(Some(v)),
            Err(error) => Err(error),
        },
    }
}

/// Lighting of one device: one static colour, its brightness, on or off. The
/// colour and the brightness stay stored while the lighting is off.
#[derive(Debug, Clone, PartialEq, Eq)]
pub struct Lighting {
    /// The lighting is on.
    pub enabled: bool,
    /// The static colour.
    pub color: Rgb,
    /// Brightness in percent.
    pub brightness: u8,
}

impl Lighting {
    /// The lighting out of the box.
    pub open spec fn default_model() -> Lighting {
        Lighting { enabled: true, color: Rgb::white_model(), brightness: 100 }
    }

    /// Every stored value is in its range.
    pub open spec fn valid(self) -> bool {
        self.brightness <= MAX_BRIGHTNESS
    }
}

/// Settings of a standalone light.
///
/// Brightness is a percentage of the range that the light offers.
#[derive(Debug, Clone, Copy, PartialEq, Eq)]
pub struct LightSettings {
    /// The light is on.
    pub enabled: bool,
    /// The light follows whether a camera is in use.
    pub auto_camera: bool,
    /// Brightness in percent.
    pub brightness_percent: u8,
    /// Colour temperature, for a light that has one.
    pub temperature_kelvin: Option<u16>,
    /// Colour, for a light that has one.
    pub color: Option<Rgb>,
}

/// The default of [`LightSettings::brightness_percent`].
pub fn default_light_brightness() -> (percent: u8)
    ensures
        percent == 100,
{
    100
}

impl Default for LightSettings {
    fn default() -> (settings: LightSettings)
        ensures
            settings == LightSettings::default_model(),
            settings.valid(),
    {
        LightSettings {
            enabled: true,
            auto_camera: false,
            brightness_percent: default_light_brightness(),
            temperature_kelvin: None,
            color: None,
        }
    }
}

impl LightSettings {
    /// The settings out of the box.
    pub open spec fn default_model() -> LightSettings {
        LightSettings {
            enabled: true,
            auto_camera: false,
            brightness_percent: 100,
            temperature_kelvin: None,
            color: None,
        }
    }

    /// Every stored value is in its range.
    pub open spec fn valid(self) -> bool {
        self.brightness_percent <= MAX_BRIGHTNESS
    }

    /// Settings with the given power, brightness and colour temperature. A
    /// brightness above the range is lowered to its top.
    #[must_use]
    pub fn new(enabled: bool, brightness_percent: u8, temperature_kelvin: Option<u16>) -> (settings:
        LightSettings)
        ensures
            settings.valid(),
            settings == (LightSettings {
                enabled,
                auto_camera: false,
                brightness_percent: if brightness_percent <= MAX_BRIGHTNESS {
                    brightness_percent
                } else {
                    MAX_BRIGHTNESS
                },
                temperature_kelvin,
                color: None,
            }),
    {
        LightSettings {
            enabled,
            auto_camera: false,
            brightness_percent: brightness_percent.min(MAX_BRIGHTNESS),
            temperature_kelvin,
            color: None,
        }
    }
}

/// Whether a flag is off, so that it need not be stored.
pub fn is_false(value: &bool) -> (off: bool)
    ensures
        off == !*value,
{
    !*value
}

impl Default for Lighting {
    fn default() -> (lighting: Lighting)
        ensures
            lighting == Lighting::default_model(),
            lighting.valid(),
    {
        Lighting {
            enabled: default_lighting_enabled(),
            color: default_lighting_color(),
            brightness: default_lighting_brightness(),
        }
    }
}

/// The default of [`Lighting::enabled`].
pub fn default_lighting_enabled() -> (on: bool)
    ensures
        on == Lighting::default_model().enabled,
{
    true
}

/// The default of [`Lighting::color`].
pub fn default_lighting_color() -> (color: Rgb)
    ensures
        color == Lighting::default_model().color,
{
    Rgb::white()
}

/// The default of [`Lighting::brightness`].
pub fn default_lighting_brightness() -> (percent: u8)
    ensures
        percent == Lighting::default_model().brightness,
{
    100
}

/// Accepts a stored brightness exactly when it is a percentage.
pub fn validate_brightness(value: u8) -> (checked: Result<u8, SettingError>)
    ensures
        checked == if value <= MAX_BRIGHTNESS {
            Ok::<u8, SettingError>(value)
        } else {
            Err(SettingError::Brightness(value))
        },
{
    if value <= MAX_BRIGHTNESS {
        Ok(value)
    } else {
        Err(SettingError::Brightness(value))
    }
}

/// Controls of one camera by name, each in the unit of the device. A control
/// that switches something on is stored as zero or one.
#[derive(Debug, Clone, Default, PartialEq, Eq)]
pub struct CameraControls(pub BTreeMap<String, i32>);

/// How fine a wheel reports its rotation.
#[derive(Debug, Clone, Copy, PartialEq, Eq, Structural)]
pub enum ScrollResolution {
    /// One report per ratchet step.
    Low,
    /// Reports between ratchet steps.
    High,
}

/// How a wheel turns.
#[derive(Debug, Clone, Copy, PartialEq, Eq, Structural)]
pub enum WheelMode {
    /// Freely, without steps.
    Free,
    /// In steps, until it is turned faster than the threshold.
    Ratchet,
}

/// Accepts a stored threshold exactly when it is not below the lowest one.
pub fn validate_auto_disengage(value: u8) -> (checked: Result<u8, SettingError>)
    ensures
        checked == if value >= SMARTSHIFT_MIN_AUTO_DISENGAGE {
            Ok::<u8, SettingError>(value)
        } else {
            Err(SettingError::AutoDisengage(value))
        },
{
    if value >= SMARTSHIFT_MIN_AUTO_DISENGAGE {
        Ok(value)
    } else {
        Err(SettingError::AutoDisengage(value))
    }
}

/// How the wheel of one device shifts between its two modes.
#[derive(Debug, Clone, Copy, PartialEq, Eq, Structural)]
pub struct SmartShift {
    /// How the wheel turns.
    pub mode: WheelMode,
    /// The speed at which the ratchet releases, in quarter turns per second;
    /// the highest value never releases it.
    pub auto_disengage: u8,
    /// The torque level; zero for a device without one.
    pub tunable_torque: u8,
}

impl SmartShift {
    /// Every stored value is in its range.
    pub open spec fn valid(self) -> bool {
        self.auto_disengage >= SMARTSHIFT_MIN_AUTO_DISENGAGE
    }

    /// Takes over stored values, or says which of them is out of its range.
    pub fn from_stored(mode: WheelMode, auto_disengage: u8, tunable_torque: u8) -> (loaded: Result<
        SmartShift,
        SettingError,
    >)
        ensures
            match loaded {
                Ok(shift) => shift.valid() && shift == (SmartShift {
                    mode,
                    auto_disengage,
                    tunable_torque,
                }),
                Err(error) => auto_disengage < SMARTSHIFT_MIN_AUTO_DISENGAGE && error
                    == SettingError::AutoDisengage(auto_disengage),
            },
    {
        match validate_auto_disengage(auto_disengage) {
            Ok(auto_disengage) => Ok(SmartShift { mode, auto_disengage, tunable_torque }),
            Err(error) => Err(error),
        }
    }
}

/// Which control had the gestures of a device, in files that allowed one
/// control to have them.
#[derive(Debug, Clone, Copy, PartialEq, Eq, Structural)]
pub enum GestureOwner {
    /// No control.
    Off,
    /// This control.
    Button(ButtonId),
}

/// What a stored owner means; none for a text that means nothing.
pub open spec fn gesture_owner_model(text: Seq<char>, owner: GestureOwner) -> bool {
    match owner {
        GestureOwner::Off => text == "Off"@,
        GestureOwner::Button(button) => text == button.name_model(),
    }
}

/// Reads a stored owner. A text that names no control counts as absent.
pub fn parse_gesture_owner(text: &str) -> (owner: Option<GestureOwner>)
    ensures
        match owner {
            Some(o) => gesture_owner_model(text@, o),
            None => forall|o: GestureOwner| !#[trigger] gesture_owner_model(text@, o),
        },
{
    if same_text(text, "Off") {
        return Some(GestureOwner::Off);
    }
    match ButtonId::from_name(text) {
        Some(button) => Some(GestureOwner::Button(button)),
        None => {
            assert forall|o: GestureOwner| !#[trigger] gesture_owner_model(text@, o) by {
                match o {
                    GestureOwner::Off => {},
                    GestureOwner::Button(button) => {
                        assert(button.name_model() != text@);
                    },
                }
            }
            None
        },
    }
}

/// A text means at most one owner.
pub proof fn gesture_owner_is_unambiguous(text: Seq<char>, a: GestureOwner, b: GestureOwner)
    requires
        gesture_owner_model(text, a),
        gesture_owner_model(text, b),
    ensures
        a == b,
{
    reveal_strlit("Off");
    match (a, b) {
        (GestureOwner::Button(x), GestureOwner::Button(y)) => {
            ButtonId::names_are_distinct(x, y);
        },
        (GestureOwner::Button(x), GestureOwner::Off) => {
            x.name_is_long();
        },
        (GestureOwner::Off, GestureOwner::Button(y)) => {
            y.name_is_long();
        },
        (GestureOwner::Off, GestureOwner::Off) => {},
    }
}

} // verus!
