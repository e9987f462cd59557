use openlogi::binding::button::ButtonId;
use openlogi::color::{parse_lighting_color, InvalidColor, Rgb};
use openlogi::config::settings::{
    clamp_thumbwheel_sensitivity, default_light_brightness, default_lighting_brightness,
    default_lighting_color, default_lighting_enabled, default_thumbwheel_sensitivity, default_true,
    is_false, parse_gesture_owner, validate_auto_disengage, validate_brightness,
    validate_optional_thumbwheel_sensitivity, validate_thumbwheel_sensitivity, AppSettings,
    Appearance, AssetSourcePreference, CameraControls, GestureOwner, LightSettings, Lighting,
    SettingError, SmartShift, WheelMode, DEFAULT_THUMBWHEEL_SENSITIVITY,
    MAX_THUMBWHEEL_SENSITIVITY, MIN_THUMBWHEEL_SENSITIVITY, SMARTSHIFT_AUTO_DISENGAGE_DEFAULT,
    SMARTSHIFT_MIN_AUTO_DISENGAGE, THUMBWHEEL_SENSITIVITY_ONE_X,
};

#[test]
fn smartshift_rejects_values_outside_the_persisted_contract() {
    let parse = |auto_disengage: u8, tunable_torque: u8| {
        let body = format!(
            "mode = \"ratchet\"\nauto_disengage = {auto_disengage}\ntunable_torque = {tunable_torque}\n"
        );
        let table = toml::from_str::<toml::Table>(&body).expect("the body is a table");
        let mode = match table["mode"].as_str() {
            Some("ratchet") => WheelMode::Ratchet,
            Some("free") => WheelMode::Free,
            other => panic!("unknown mode {other:?}"),
        };
        let byte = |name: &str| {
            u8::try_from(table[name].as_integer().expect("a number")).expect("a byte")
        };
        SmartShift::from_stored(mode, byte("auto_disengage"), byte("tunable_torque"))
    };
    parse(SMARTSHIFT_MIN_AUTO_DISENGAGE - 1, 50)
        .expect_err("auto_disengage below the persisted minimum must be rejected");
    parse(SMARTSHIFT_MIN_AUTO_DISENGAGE, 50).expect("the minimum itself is in contract");
    parse(0xff, 0xff).expect("the top of both ranges is in contract");
}

#[test]
fn smartshift_keeps_what_it_accepts() {
    assert_eq!(
        SmartShift::from_stored(WheelMode::Free, 16, 0),
        Ok(SmartShift { mode: WheelMode::Free, auto_disengage: 16, tunable_torque: 0 })
    );
    assert_eq!(
        SmartShift::from_stored(WheelMode::Ratchet, 7, 50),
        Err(SettingError::AutoDisengage(7))
    );
    assert_eq!(SMARTSHIFT_AUTO_DISENGAGE_DEFAULT, 16);
}

#[test]
fn auto_disengage_floor_and_message() {
    assert_eq!(validate_auto_disengage(8), Ok(8));
    assert_eq!(validate_auto_disengage(255), Ok(255));
    let error = validate_auto_disengage(0).unwrap_err();
    assert_eq!(error, SettingError::AutoDisengage(0));
    assert_eq!(error.message(), "SmartShift auto_disengage must be between 8 and 255, got 0");
}

#[test]
fn clamp_keeps_the_range_and_cuts_the_rest() {
    assert_eq!(clamp_thumbwheel_sensitivity(i32::MIN), MIN_THUMBWHEEL_SENSITIVITY);
    assert_eq!(clamp_thumbwheel_sensitivity(0), 1);
    assert_eq!(clamp_thumbwheel_sensitivity(1), 1);
    assert_eq!(clamp_thumbwheel_sensitivity(18), 18);
    assert_eq!(clamp_thumbwheel_sensitivity(100), 100);
    assert_eq!(clamp_thumbwheel_sensitivity(101), MAX_THUMBWHEEL_SENSITIVITY);
    assert_eq!(clamp_thumbwheel_sensitivity(i32::MAX), 100);
    assert_eq!(THUMBWHEEL_SENSITIVITY_ONE_X, 14);
}

#[test]
fn stored_sensitivity_is_checked_not_clamped() {
    assert_eq!(validate_thumbwheel_sensitivity(1), Ok(1));
    assert_eq!(validate_thumbwheel_sensitivity(100), Ok(100));
    let error = validate_thumbwheel_sensitivity(-2147483648).unwrap_err();
    assert_eq!(
        error.message(),
        "thumbwheel sensitivity must be between 1 and 100, got -2147483648"
    );
    assert_eq!(
        validate_thumbwheel_sensitivity(101),
        Err(SettingError::ThumbwheelSensitivity(101))
    );
}

#[test]
fn optional_sensitivity_may_be_absent() {
    assert_eq!(validate_optional_thumbwheel_sensitivity(None), Ok(None));
    assert_eq!(validate_optional_thumbwheel_sensitivity(Some(42)), Ok(Some(42)));
    assert_eq!(
        validate_optional_thumbwheel_sensitivity(Some(0)),
        Err(SettingError::ThumbwheelSensitivity(0))
    );
}

#[test]
fn stored_brightness_is_a_percentage() {
    assert_eq!(validate_brightness(0), Ok(0));
    assert_eq!(validate_brightness(100), Ok(100));
    let error = validate_brightness(101).unwrap_err();
    assert_eq!(error, SettingError::Brightness(101));
    assert_eq!(error.message(), "brightness must be between 0 and 100, got 101");
}

#[test]
fn default_settings_are_default_and_any_change_is_not() {
    let defaults = AppSettings::default();
    assert!(defaults.is_default());
    assert_eq!(defaults.thumbwheel_sensitivity, DEFAULT_THUMBWHEEL_SENSITIVITY);
    assert_eq!(defaults.asset_source, AssetSourcePreference::Automatic);
    assert_eq!(defaults.appearance, Appearance::default());
    assert!(defaults.show_in_menu_bar && defaults.capture_mouse_events);
    assert!(!defaults.check_for_updates && !defaults.launch_at_login);

    let mut changed = AppSettings::default();
    changed.language = Some(String::from("de"));
    assert!(!changed.is_default());
    let mut changed = AppSettings::default();
    changed.auto_download_assets = false;
    assert!(!changed.is_default());
    let mut changed = AppSettings::default();
    changed.ui_radius = Some(0);
    assert!(!changed.is_default());
    let mut changed = AppSettings::default();
    changed.thumbwheel_sensitivity = 14;
    assert!(!changed.is_default());
    let mut changed = AppSettings::default();
    changed.appearance = Appearance::Dark;
    assert!(!changed.is_default());
}

#[test]
fn field_defaults_agree_with_whole_defaults() {
    assert!(default_true());
    assert_eq!(default_thumbwheel_sensitivity(), AppSettings::default().thumbwheel_sensitivity);
    assert_eq!(default_light_brightness(), LightSettings::default().brightness_percent);
    let lighting = Lighting::default();
    assert_eq!(default_lighting_enabled(), lighting.enabled);
    assert_eq!(default_lighting_color(), lighting.color);
    assert_eq!(default_lighting_brightness(), lighting.brightness);
    assert_eq!(lighting.color, Rgb { r: 255, g: 255, b: 255 });
    assert_eq!(lighting.brightness, 100);
    assert!(is_false(&false));
    assert!(!is_false(&true));
    assert!(CameraControls::default().0.is_empty());
}

#[test]
fn new_light_settings_cap_the_brightness() {
    let settings = LightSettings::new(false, 255, Some(4600));
    assert_eq!(
        settings,
        LightSettings {
            enabled: false,
            auto_camera: false,
            brightness_percent: 100,
            temperature_kelvin: Some(4600),
            color: None,
        }
    );
    assert_eq!(LightSettings::new(true, 37, None).brightness_percent, 37);
    assert_eq!(LightSettings::new(true, 100, None), LightSettings::default());
}

#[test]
fn lighting_color_reads_with_and_without_hash() {
    let orange = Rgb { r: 0xff, g: 0x80, b: 0x0a };
    assert_eq!(parse_lighting_color("ff800A"), Ok(orange));
    assert_eq!(parse_lighting_color("#FF800a"), Ok(orange));
    assert_eq!(parse_lighting_color("##ff800a"), Err(InvalidColor));
    assert_eq!(parse_lighting_color(""), Err(InvalidColor));
    assert_eq!(parse_lighting_color("#"), Err(InvalidColor));
    assert_eq!(parse_lighting_color("ff800"), Err(InvalidColor));
    assert_eq!(parse_lighting_color("ff800g"), Err(InvalidColor));
    assert_eq!(parse_lighting_color("ff800\u{e4}"), Err(InvalidColor));
    assert_eq!(Rgb::parse("#ff800a"), Err(InvalidColor));
}

#[test]
fn written_colors_read_back() {
    let color = Rgb { r: 0x0f, g: 0xa0, b: 0x5c };
    assert_eq!(color.to_hex(), "0FA05C");
    assert_eq!(Rgb::parse(&color.to_hex()), Ok(color));
    assert_eq!(Rgb::white().to_hex(), "FFFFFF");
}

#[test]
fn gesture_owner_is_lenient() {
    assert_eq!(parse_gesture_owner("Off"), Some(GestureOwner::Off));
    assert_eq!(
        parse_gesture_owner("GestureButton"),
        Some(GestureOwner::Button(ButtonId::GestureButton))
    );
    assert_eq!(parse_gesture_owner("Back"), Some(GestureOwner::Button(ButtonId::Back)));
    assert_eq!(parse_gesture_owner("off"), None);
    assert_eq!(parse_gesture_owner("Sideways"), None);
    assert_eq!(parse_gesture_owner(""), None);
}

#[test]
fn control_names_read_back() {
    for button in ButtonId::all() {
        assert_eq!(ButtonId::from_name(button.name()), Some(button));
    }
    assert_eq!(ButtonId::all().len(), 20);
}
