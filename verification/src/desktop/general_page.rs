//! The page of general settings.

use crate::config::settings::{AppSettings, DEFAULT_THUMBWHEEL_SENSITIVITY};
use crate::text::decimal_text;
#[allow(unused_imports)]
use crate::text::decimal;
use vstd::prelude::*;
use vstd::string::*;

verus! {

/// The operating system that the program runs on.
#[derive(Debug, Clone, Copy, PartialEq, Eq, Structural)]
pub enum Platform {
    MacOs,
    Windows,
    Linux,
}

/// A preference that is on or off.
#[derive(Debug, Clone, Copy, PartialEq, Eq, Structural)]
pub enum Toggle {
    LaunchAtLogin,
    ShowInMenuBar,
}

/// What an entry of the page is operated with.
#[derive(Debug, Clone, Copy, PartialEq, Eq, Structural)]
pub enum Control {
    /// The slider for the thumb wheel.
    SensitivitySlider,
    Switch(Toggle),
}

/// One entry of the page. Its texts are keys of the translations.
#[derive(Debug, Clone, Copy, PartialEq, Eq)]
pub struct SettingItem {
    pub title: &'static str,
    pub description: &'static str,
    pub control: Control,
}

/// A [`SettingItem`] as a mathematical value.
pub ghost struct ItemModel {
    pub title: Seq<char>,
    pub description: Seq<char>,
    pub control: Control,
}

impl View for SettingItem {
    type V = ItemModel;

    open spec fn view(&self) -> ItemModel {
        ItemModel {
            title: self.title@,
            description: self.description@,
            control: self.control,
        }
    }
}

/// The picture of a page in the list of pages.
#[derive(Debug, Clone, Copy, PartialEq, Eq, Structural)]
pub enum PageIcon {
    Settings,
}

/// The page of general settings.
#[derive(Debug)]
pub struct GeneralPage {
    pub title: &'static str,
    pub icon: PageIcon,
    /// The page offers to put everything back.
    pub resettable: bool,
    pub items: Vec<SettingItem>,
}

/// The entry for the thumb wheel.
pub open spec fn sensitivity_item() -> ItemModel {
    ItemModel {
        title: "Thumb Wheel Sensitivity"@,
        description:
            "Scales the thumb wheel's horizontal scroll speed, native zoom speed, and how readily custom wheel actions trigger."@,
        control: Control::SensitivitySlider,
    }
}

/// The entry for the start of the program.
pub open spec fn launch_item(platform: Platform) -> ItemModel {
    ItemModel {
        title: "Launch at login"@,
        description: if platform == Platform::MacOs {
            "Automatically start OpenLogi when you log in to macOS."@
        } else {
            "Automatically start OpenLogi when you log in."@
        },
        control: Control::Switch(Toggle::LaunchAtLogin),
    }
}

/// The entry for the icon of the program.
pub open spec fn icon_item(platform: Platform) -> ItemModel {
    ItemModel {
        title: if platform == Platform::MacOs {
            "Show in menu bar"@
        } else {
            "Show in the notification area"@
        },
        description: if platform == Platform::MacOs {
            "Keep OpenLogi's icon in the menu bar. When off, it stays in the Dock instead."@
        } else {
            "Keep OpenLogi's icon in the taskbar notification area. Takes effect the next time the background agent starts."@
        },
        control: Control::Switch(Toggle::ShowInMenuBar),
    }
}

/// The entries of the page. Linux has no place for an icon of the program.
pub open spec fn items_model(platform: Platform) -> Seq<ItemModel> {
    if platform == Platform::Linux {
        seq![sensitivity_item(), launch_item(platform)]
    } else {
        seq![sensitivity_item(), launch_item(platform), icon_item(platform)]
    }
}

/// Lays the page out.
pub fn general_page(platform: Platform) -> (page: GeneralPage)
    ensures
        page.title@ == "General"@,
        page.icon == PageIcon::Settings,
        !page.resettable,
        page.items@.map_values(|item: SettingItem| item@) == items_model(platform),
{
    let mut items: Vec<SettingItem> = Vec::new();
    items.push(
        SettingItem {
            title: "Thumb Wheel Sensitivity",
            description:
                "Scales the thumb wheel's horizontal scroll speed, native zoom speed, and how readily custom wheel actions trigger.",
            control: Control::SensitivitySlider,
        },
    );
    items.push(
        SettingItem {
            title: "Launch at login",
            description: if platform == Platform::MacOs {
                "Automatically start OpenLogi when you log in to macOS."
            } else {
                "Automatically start OpenLogi when you log in."
            },
            control: Control::Switch(Toggle::LaunchAtLogin),
        },
    );
    if platform != Platform::Linux {
        items.push(
            SettingItem {
                title: if platform == Platform::MacOs {
                    "Show in menu bar"
                } else {
                    "Show in the notification area"
                },
                description: if platform == Platform::MacOs {
                    "Keep OpenLogi's icon in the menu bar. When off, it stays in the Dock instead."
                } else {
                    "Keep OpenLogi's icon in the taskbar notification area. Takes effect the next time the background agent starts."
                },
                control: Control::Switch(Toggle::ShowInMenuBar),
            },
        );
    }
    assert(items@.map_values(|item: SettingItem| item@) =~= items_model(platform));
    GeneralPage { title: "General", icon: PageIcon::Settings, resettable: false, items }
}

impl Toggle {
    /// The stored state of the preference.
    pub open spec fn of(self, settings: AppSettings) -> bool {
        match self {
            Toggle::LaunchAtLogin => settings.launch_at_login,
            Toggle::ShowInMenuBar => settings.show_in_menu_bar,
        }
    }

    /// Whether the switch is shown as on. Without preferences it is off.
    pub fn value(self, settings: Option<&AppSettings>) -> (on: bool)
        ensures
            on == (settings matches Some(s) && self.of(*s)),
    {
        match settings {
            Some(settings) => match self {
                Toggle::LaunchAtLogin => settings.launch_at_login,
                Toggle::ShowInMenuBar => settings.show_in_menu_bar,
            },
            None => false,
        }
    }

    /// Flips the preference to the given state and touches no other.
    pub fn set(self, settings: &mut AppSettings, on: bool)
        ensures
            *final(settings) == match self {
                Toggle::LaunchAtLogin => AppSettings { launch_at_login: on, ..*old(settings) },
                Toggle::ShowInMenuBar => AppSettings { show_in_menu_bar: on, ..*old(settings) },
            },
    {
        match self {
            Toggle::LaunchAtLogin => {
                settings.launch_at_login = on;
            },
            Toggle::ShowInMenuBar => {
                settings.show_in_menu_bar = on;
            },
        }
    }

    /// A switch shows what it was set to, and leaves the other one alone.
    pub proof fn switch_shows_what_was_set(self, other: Toggle, before: AppSettings, on: bool)
        ensures
            ({
                let after = match self {
                    Toggle::LaunchAtLogin => AppSettings { launch_at_login: on, ..before },
                    Toggle::ShowInMenuBar => AppSettings { show_in_menu_bar: on, ..before },
                };
                &&& self.of(after) == on
                &&& other != self ==> other.of(after) == other.of(before)
            }),
    {
    }
}

/// What stands beside the slider for the thumb wheel.
#[derive(Debug)]
pub struct SensitivityField {
    /// The value of the slider.
    pub text: String,
    /// The note that this is the value out of the box.
    pub caption: Option<String>,
}

/// Writes out what stands beside the slider. `default_word` is the translated
/// word for a default.
pub fn sensitivity_field(value: i32, default_word: &str) -> (field: SensitivityField)
    ensures
        field.text@ == decimal(value as int),
        match field.caption {
            Some(caption) => value == DEFAULT_THUMBWHEEL_SENSITIVITY && caption@ == "("@
                + default_word@ + ")"@,
            None => value != DEFAULT_THUMBWHEEL_SENSITIVITY,
        },
{
    let text: String = decimal_text(value);
    if value == DEFAULT_THUMBWHEEL_SENSITIVITY {
        let mut caption: String = "(".to_owned();
        caption.append(default_word);
        caption.append(")");
        SensitivityField { text, caption: Some(caption) }
    } else {
        SensitivityField { text, caption: None }
    }
}

} // verus!
