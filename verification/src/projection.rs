//! What the running system reads off a configuration: the action of every
//! plain press, and the gesture maps of the controls in gesture mode.

use crate::binding::action::Action;
use crate::binding::button::ButtonId;
use crate::binding::defaults::{default_binding, default_gesture_map};
#[allow(unused_imports)]
use crate::binding::defaults::{default_action, default_gesture_map_model};
use crate::binding::gesture::GestureDirection;
use crate::binding::value::{Binding, GestureMap};
#[allow(unused_imports)]
use crate::binding::value::BindingModel;
use crate::config::store::Config;
#[allow(unused_imports)]
use crate::config::store::ConfigModel;
use crate::table::{Table, Value};
use vstd::prelude::*;

verus! {

/// The action of every plain press.
pub type ActionMap = Table<ButtonId, Action>;

/// The gesture maps of the controls in gesture mode.
pub type GestureMaps = Table<ButtonId, GestureMap>;

/// The gesture maps of the controls in gesture mode, as a mathematical value.
pub type GestureMapsModel = Map<ButtonId, Map<GestureDirection, Action>>;

/// The characters of a text that may be absent.
pub open spec fn chars(text: Option<&str>) -> Option<Seq<char>> {
    match text {
        Some(t) => Some(t@),
        None => None,
    }
}

/// The binding stored for a control, that of the application first.
pub open spec fn overlaid(
    config: ConfigModel,
    key: Option<Seq<char>>,
    app: Option<Seq<char>>,
    button: ButtonId,
) -> Option<BindingModel> {
    match key {
        None => None,
        Some(k) => if app is Some && config.stored_for_app(k, app->0, button) is Some {
            config.stored_for_app(k, app->0, button)
        } else {
            config.stored(k, button)
        },
    }
}

/// What a plain press of a control triggers.
pub open spec fn press_of(
    config: ConfigModel,
    key: Option<Seq<char>>,
    app: Option<Seq<char>>,
    button: ButtonId,
) -> Action {
    match overlaid(config, key, app, button) {
        Some(binding) => binding.press(),
        None => default_action(button),
    }
}

/// The action of every plain press.
pub open spec fn bindings_model(
    config: ConfigModel,
    key: Option<Seq<char>>,
    app: Option<Seq<char>>,
) -> Map<ButtonId, Action> {
    Map::new(|b: ButtonId| true, |b: ButtonId| press_of(config, key, app, b))
}

/// The device itself reports the gestures of a control. It always does for the
/// gesture button.
pub open spec fn is_device_source(sources: Seq<ButtonId>, button: ButtonId) -> bool {
    button == ButtonId::GestureButton || sources.contains(button)
}

/// A gesture map with the default in every direction that it lacks.
pub open spec fn seeded(map: Map<GestureDirection, Action>) -> Map<GestureDirection, Action> {
    default_gesture_map_model().union_prefer_right(map)
}

/// The maps of the controls whose gestures the device reports: every direction
/// is there.
pub open spec fn device_gestures_model(
    config: ConfigModel,
    key: Option<Seq<char>>,
    sources: Seq<ButtonId>,
) -> GestureMapsModel {
    Map::new(
        |b: ButtonId| key is Some && is_device_source(sources, b) && config.gesture_mode(key->0, b),
        |b: ButtonId| seeded(config.binding(key->0, b)->Gesture_0),
    )
}

/// The maps of the controls whose gestures are read from the pointer: as
/// stored.
pub open spec fn pointer_gestures_model(
    config: ConfigModel,
    key: Option<Seq<char>>,
    app: Option<Seq<char>>,
    sources: Seq<ButtonId>,
) -> GestureMapsModel {
    Map::new(
        |b: ButtonId|
            !is_device_source(sources, b) && (overlaid(config, key, app, b) matches Some(binding)
                && binding is Gesture),
        |b: ButtonId| overlaid(config, key, app, b)->0->Gesture_0,
    )
}

/// Whether the device itself reports the gestures of a control.
fn reports_gestures(sources: &Vec<ButtonId>, button: ButtonId) -> (reports: bool)
    ensures
        reports == is_device_source(sources@, button),
{
    if button == ButtonId::GestureButton {
        return true;
    }
    let mut i: usize = 0;
    while i < sources.len()
        invariant
            i <= sources@.len(),
            forall|j: int| 0 <= j < i ==> sources@[j] != button,
        decreases sources@.len() - i,
    {
        if sources[i] == button {
            return true;
        }
        i += 1;
    }
    false
}

/// The binding stored for a control, that of the application first.
fn overlaid_binding<'a>(
    config: &'a Config,
    key: Option<&str>,
    app: Option<&str>,
    button: ButtonId,
) -> (binding: Option<&'a Binding>)
    ensures
        match binding {
            Some(b) => overlaid(config@, chars(key), chars(app), button) == Some(b@),
            None => overlaid(config@, chars(key), chars(app), button) is None,
        },
{
    match key {
        None => None,
        Some(key) => {
            if let Some(app) = app {
                let binding: Option<&'a Binding> = config.stored_for_app(key, app, button);
                if binding.is_some() {
                    return binding;
                }
            }
            config.stored(key, button)
        },
    }
}

/// The action of every plain press of a device, in an application. Without a
/// device there are the defaults.
pub fn bindings_for(config: &Config, key: Option<&str>, app: Option<&str>) -> (bindings: ActionMap)
    ensures
        bindings@ == bindings_model(config@, chars(key), chars(app)),
{
    let buttons: Vec<ButtonId> = ButtonId::all();
    let mut bindings: ActionMap = Table::new();
    let mut i: usize = 0;
    while i < buttons.len()
        invariant
            i <= buttons@.len(),
            buttons@ == ButtonId::every(),
            forall|b: ButtonId| #[trigger] bindings@.contains_key(b) <==> b.place() < i,
            forall|b: ButtonId| #[trigger]
                bindings@.contains_key(b) ==> bindings@[b] == press_of(
                    config@,
                    chars(key),
                    chars(app),
                    b,
                ),
        decreases buttons@.len() - i,
    {
        let button: ButtonId = buttons[i];
        proof {
            button.every_is_complete();
            lemma_next_place(i as int);
        }
        let action: Action = match overlaid_binding(config, key, app, button) {
            Some(binding) => binding.press(),
            None => default_binding(button),
        };
        bindings.insert(button, action);
        i += 1;
    }
    proof {
        assert forall|b: ButtonId| #[trigger] bindings@.contains_key(b) by {
            b.every_is_complete();
        }
        assert(bindings@ =~= bindings_model(config@, chars(key), chars(app)));
    }
    bindings
}

/// The control at one place is the only one there.
proof fn lemma_next_place(i: int)
    requires
        0 <= i < ButtonId::every().len(),
    ensures
        forall|b: ButtonId| (#[trigger] b.place()) == i <==> b == ButtonId::every()[i],
{
    assert forall|b: ButtonId| (#[trigger] b.place()) == i <==> b == ButtonId::every()[i] by {
        b.every_is_complete();
    }
}

/// The maps of the controls of a device whose gestures the device reports.
pub fn hidpp_gesture_maps_for(
    config: &Config,
    key: Option<&str>,
    sources: &Vec<ButtonId>,
) -> (maps: GestureMaps)
    ensures
        maps@ == device_gestures_model(config@, chars(key), sources@),
{
    let ghost model = device_gestures_model(config@, chars(key), sources@);
    let mut maps: GestureMaps = Table::new();
    let key: &str = match key {
        Some(key) => key,
        None => {
            assert(maps@ =~= model);
            return maps;
        },
    };
    let buttons: Vec<ButtonId> = ButtonId::all();
    let mut i: usize = 0;
    while i < buttons.len()
        invariant
            i <= buttons@.len(),
            buttons@ == ButtonId::every(),
            model == device_gestures_model(config@, Some(key@), sources@),
            forall|b: ButtonId| #[trigger]
                maps@.contains_key(b) <==> b.place() < i && model.contains_key(b),
            forall|b: ButtonId| #[trigger] maps@.contains_key(b) ==> maps@[b] == model[b],
        decreases buttons@.len() - i,
    {
        let button: ButtonId = buttons[i];
        proof {
            button.every_is_complete();
            lemma_next_place(i as int);
        }
        if reports_gestures(sources, button) {
            if let Binding::Gesture(stored) = config.binding(key, button) {
                let mut map: GestureMap = default_gesture_map();
                map.extend(stored);
                maps.insert(button, map);
            }
        }
        i += 1;
    }
    proof {
        assert forall|b: ButtonId| (#[trigger] maps@.contains_key(b)) == model.contains_key(b) by {
            b.every_is_complete();
        }
        assert(maps@ =~= model);
    }
    maps
}

/// The maps of the controls of a device whose gestures are read from the
/// pointer, in an application.
pub fn oshook_gestures_for(
    config: &Config,
    key: Option<&str>,
    app: Option<&str>,
    sources: &Vec<ButtonId>,
) -> (maps: GestureMaps)
    ensures
        maps@ == pointer_gestures_model(config@, chars(key), chars(app), sources@),
{
    let ghost model = pointer_gestures_model(config@, chars(key), chars(app), sources@);
    let mut maps: GestureMaps = Table::new();
    let buttons: Vec<ButtonId> = ButtonId::all();
    let mut i: usize = 0;
    while i < buttons.len()
        invariant
            i <= buttons@.len(),
            buttons@ == ButtonId::every(),
            model == pointer_gestures_model(config@, chars(key), chars(app), sources@),
            forall|b: ButtonId| #[trigger]
                maps@.contains_key(b) <==> b.place() < i && model.contains_key(b),
            forall|b: ButtonId| #[trigger] maps@.contains_key(b) ==> maps@[b] == model[b],
        decreases buttons@.len() - i,
    {
        let button: ButtonId = buttons[i];
        proof {
            button.every_is_complete();
            lemma_next_place(i as int);
        }
        if !reports_gestures(sources, button) {
            if let Some(Binding::Gesture(map)) = overlaid_binding(config, key, app, button) {
                maps.insert(button, map.copied());
            }
        }
        i += 1;
    }
    proof {
        assert forall|b: ButtonId| (#[trigger] maps@.contains_key(b)) == model.contains_key(b) by {
            b.every_is_complete();
        }
        assert(maps@ =~= model);
    }
    maps
}

/// The binding that the application in front has for a control of the device is
/// the one that counts, whatever else is stored; only where it has none does
/// the one for the whole device count. Without a device nothing does.
pub proof fn application_bindings_come_first(
    config: ConfigModel,
    k: Seq<char>,
    a: Seq<char>,
    app: Option<Seq<char>>,
    button: ButtonId,
)
    ensures
        ({
            let known = config.devices.contains_key(k);
            let device = config.devices[k];
            let in_app = known && device.app_bindings.contains_key(a)
                && device.app_bindings[a].contains_key(button);
            let anywhere = known && device.bindings.contains_key(button);
            &&& in_app ==> overlaid(config, Some(k), Some(a), button) == Some(
                device.app_bindings[a][button],
            )
            &&& !in_app && anywhere ==> overlaid(config, Some(k), Some(a), button) == Some(
                device.bindings[button],
            )
            &&& !in_app && !anywhere ==> overlaid(config, Some(k), Some(a), button) is None
            &&& anywhere ==> overlaid(config, Some(k), None, button) == Some(
                device.bindings[button],
            )
            &&& !anywhere ==> overlaid(config, Some(k), None, button) is None
            &&& overlaid(config, None, app, button) is None
        }),
{
}

/// Every control is shown with the plain press of its binding: the single
/// action, or the `Click` of a gesture, or nothing for a gesture without one.
/// The binding of the application in front comes before that of the device, and
/// a control with neither is shown with its default.
pub proof fn every_control_shows_the_press_that_counts(
    config: ConfigModel,
    k: Seq<char>,
    a: Seq<char>,
    button: ButtonId,
)
    ensures
        ({
            let shown = bindings_model(config, Some(k), Some(a));
            let known = config.devices.contains_key(k);
            let device = config.devices[k];
            let in_app = known && device.app_bindings.contains_key(a)
                && device.app_bindings[a].contains_key(button);
            let anywhere = known && device.bindings.contains_key(button);
            let binding = if in_app {
                device.app_bindings[a][button]
            } else {
                device.bindings[button]
            };
            &&& shown.contains_key(button)
            &&& in_app || anywhere ==> match binding {
                BindingModel::Single(action) => shown[button] == action,
                BindingModel::Gesture(map) => if map.contains_key(GestureDirection::Click) {
                    shown[button] == map[GestureDirection::Click]
                } else {
                    shown[button] == Action::Nothing
                },
            }
            &&& !in_app && !anywhere ==> shown[button] == default_action(button)
        }),
{
}

/// Without an application the bindings of applications count for nothing, and
/// without a device every control is shown with its default.
pub proof fn without_a_device_the_defaults_are_shown(
    config: ConfigModel,
    k: Seq<char>,
    app: Option<Seq<char>>,
    button: ButtonId,
)
    ensures
        bindings_model(config, None, app).contains_key(button),
        bindings_model(config, None, app)[button] == default_action(button),
        bindings_model(config, Some(k), None).contains_key(button),
        config.devices.contains_key(k) && config.devices[k].bindings.contains_key(button)
            ==> bindings_model(config, Some(k), None)[button]
            == config.devices[k].bindings[button].press(),
        !(config.devices.contains_key(k) && config.devices[k].bindings.contains_key(button))
            ==> bindings_model(config, Some(k), None)[button] == default_action(button),
{
}

/// The device reports the gestures of the gesture button always, and of another
/// control exactly where that is among its sources.
pub proof fn sources_report_their_gestures(sources: Seq<ButtonId>, button: ButtonId, i: int)
    ensures
        is_device_source(sources, ButtonId::GestureButton),
        0 <= i < sources.len() ==> is_device_source(sources, sources[i]),
        button != ButtonId::GestureButton && !sources.contains(button) ==> !is_device_source(
            sources,
            button,
        ),
{
}

/// A seeded map keeps every action of its own, and has the default in every
/// direction for which it has none.
pub proof fn seeding_fills_gaps_only(
    map: Map<GestureDirection, Action>,
    direction: GestureDirection,
)
    ensures
        seeded(map).contains_key(direction),
        map.contains_key(direction) ==> seeded(map)[direction] == map[direction],
        !map.contains_key(direction) ==> seeded(map)[direction]
            == default_gesture_map_model()[direction],
{
}

/// The maps that the device reports are those of its sources in gesture mode,
/// each with its own action in every direction that it has and the default in
/// the others.
pub proof fn reported_maps_are_seeded(
    config: ConfigModel,
    k: Seq<char>,
    sources: Seq<ButtonId>,
    button: ButtonId,
    direction: GestureDirection,
)
    ensures
        ({
            let maps = device_gestures_model(config, Some(k), sources);
            &&& maps.contains_key(button) <==> (button == ButtonId::GestureButton
                || sources.contains(button)) && config.binding(k, button) is Gesture
            &&& maps.contains_key(button) ==> {
                let own = config.binding(k, button)->Gesture_0;
                &&& maps[button].contains_key(direction)
                &&& own.contains_key(direction) ==> maps[button][direction] == own[direction]
                &&& !own.contains_key(direction) ==> maps[button][direction]
                    == default_gesture_map_model()[direction]
            }
            &&& !device_gestures_model(config, None, sources).contains_key(button)
        }),
{
}

/// The maps that are read from the pointer are those of the other controls with
/// a gesture stored, as stored: that of the application first, and with no
/// direction filled in.
pub proof fn pointer_maps_are_as_stored(
    config: ConfigModel,
    k: Seq<char>,
    app: Option<Seq<char>>,
    sources: Seq<ButtonId>,
    button: ButtonId,
)
    ensures
        ({
            let maps = pointer_gestures_model(config, Some(k), app, sources);
            let known = config.devices.contains_key(k);
            let device = config.devices[k];
            let in_app = known && app is Some && device.app_bindings.contains_key(app->0)
                && device.app_bindings[app->0].contains_key(button);
            let anywhere = known && device.bindings.contains_key(button);
            let binding = if in_app {
                device.app_bindings[app->0][button]
            } else {
                device.bindings[button]
            };
            &&& maps.contains_key(button) <==> button != ButtonId::GestureButton
                && !sources.contains(button) && (in_app || anywhere) && binding is Gesture
            &&& maps.contains_key(button) ==> maps[button] == binding->Gesture_0
            &&& !pointer_gestures_model(config, None, app, sources).contains_key(button)
        }),
{
}

/// A text that is there stands for its characters.
pub proof fn a_text_stands_for_its_characters(text: &str)
    ensures
        chars(Some(text)) == Some(text@),
        chars(None) is None,
{
}

} // verus!
