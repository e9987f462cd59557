use openlogi::config::settings::{AppSettings, AssetSourcePreference};
use openlogi::desktop::agent::{
    redraw_after_wipe, AgentLink, AgentStatus, AgentView, InventoryHealth, RedrawPlan,
};
use openlogi::desktop::asset_sync::{
    fetch_all, AfterCommand, AfterOutcome, AssetCommand, AssetSync, AssetTarget, Latest, MergePlan,
    SyncOutcome, SyncState,
};
use openlogi::desktop::camera_scan::{cameras_differ, looks_for_cameras, CameraScan};
use openlogi::desktop::commands::{
    asks_for_update_consent, dispatch_gui_command, quits_after_close, DeeplinkCommand, GuiStep,
};
use openlogi::desktop::general_page::{
    general_page, sensitivity_field, Control, Platform, Toggle,
};
use openlogi::desktop::updates::{
    refreshes_windows, LinkDown, UpdateFeed, UpdateKind, UpdateStep,
};
use openlogi::desktop::window::{
    main_window_geometry, main_window_title, OpenStep, OpenedStep, WindowRegistry,
};

fn target(key: &str) -> AssetTarget<u32> {
    AssetTarget { key: String::from(key), item: 7 }
}

fn arm(sync: &mut AssetSync, now: u64, delay: u64, keys: &[&str]) -> Option<Vec<String>> {
    let models = keys.iter().map(|k| target(k)).collect();
    sync.arm(true, AssetSourcePreference::Fastly, now, delay, models, vec![target("cam")])
        .map(|fetch| {
            assert_eq!(fetch.source, AssetSourcePreference::Fastly);
            fetch.targets.into_iter().map(|t| t.key).collect()
        })
}

fn outcome(ok: bool, keys: &[&str]) -> SyncOutcome {
    SyncOutcome { ok, keys: keys.iter().map(|k| String::from(*k)).collect() }
}

#[test]
fn first_report_fetches_even_without_devices() {
    let mut sync = AssetSync::new(true);
    let fetch = sync
        .arm::<u32>(true, AssetSourcePreference::Automatic, 5, 0, Vec::new(), Vec::new())
        .expect("the index is missing");
    assert!(fetch.targets.is_empty());
    assert!(sync.is_running());
    assert_eq!(sync.attempts, 1);
    assert_eq!(sync.last_at, Some(5));
}

#[test]
fn fetch_needs_the_preference_and_the_build() {
    let mut off = AssetSync::new(true);
    assert!(off
        .arm(false, AssetSourcePreference::Automatic, 0, 0, vec![target("a")], Vec::new())
        .is_none());
    let mut bundled = AssetSync::new(false);
    assert!(arm(&mut bundled, 0, 0, &["a"]).is_none());
    assert!(!bundled.is_running());
}

#[test]
fn success_leaves_only_new_models_to_fetch() {
    let mut sync = AssetSync::new(true);
    assert_eq!(
        arm(&mut sync, 10, 0, &["a", "b"]),
        Some(vec![String::from("a"), String::from("b"), String::from("cam")])
    );
    assert_eq!(arm(&mut sync, 11, 0, &["c"]), None);
    let after = sync.on_outcome(outcome(true, &["a", "b", "cam"]));
    assert_eq!(after, AfterOutcome { rebuild_resolver: true, reissue: None });
    assert_eq!((sync.attempts, sync.last_at, sync.dirty), (0, None, true));
    assert_eq!(arm(&mut sync, 12, 1000, &["b", "a"]), None);
    assert_eq!(arm(&mut sync, 13, 1000, &["b", "c", "a"]), Some(vec![String::from("c")]));
}

#[test]
fn failure_waits_for_the_delay() {
    let mut sync = AssetSync::new(true);
    assert!(arm(&mut sync, 100, 0, &["a"]).is_some());
    let after = sync.on_outcome(outcome(false, &["a", "cam"]));
    assert_eq!(after, AfterOutcome { rebuild_resolver: false, reissue: None });
    assert_eq!((sync.attempts, sync.last_at, sync.dirty), (1, Some(100), false));
    assert!(arm(&mut sync, 149, 50, &["a"]).is_none());
    assert!(arm(&mut sync, 90, 50, &["a"]).is_none());
    assert!(arm(&mut sync, 150, 50, &["a"]).is_some());
    assert_eq!(sync.attempts, 2);
}

#[test]
fn attempts_do_not_wrap() {
    let mut sync = AssetSync::new(true);
    sync.attempts = u32::MAX;
    assert!(arm(&mut sync, 0, 0, &["a"]).is_some());
    assert_eq!(sync.attempts, u32::MAX);
}

#[test]
fn commands_wait_for_a_running_fetch_and_a_wipe_wins() {
    let mut sync = AssetSync::new(true);
    assert!(arm(&mut sync, 0, 0, &["a"]).is_some());
    assert_eq!(sync.on_command(AssetCommand::Refresh), AfterCommand::Wait);
    assert_eq!(sync.state, SyncState::Running { deferred: Some(AssetCommand::Refresh) });
    assert_eq!(sync.on_command(AssetCommand::ClearCache), AfterCommand::Wait);
    assert_eq!(sync.on_command(AssetCommand::Refresh), AfterCommand::Wait);
    let after = sync.on_outcome(outcome(true, &["a"]));
    assert_eq!(after.reissue, Some(AssetCommand::ClearCache));
    assert_eq!(sync.state, SyncState::Idle);
}

#[test]
fn idle_commands_start_a_fetch() {
    let mut sync = AssetSync::new(false);
    sync.index_refreshed = true;
    sync.synced_keys.insert(String::from("a"));
    sync.attempts = 4;
    sync.last_at = Some(9);
    assert_eq!(
        sync.on_command(AssetCommand::Refresh),
        AfterCommand::Start {
            clear_cache: false,
            merge: MergePlan { merge: false, force: false, store: false },
        }
    );
    assert!(sync.index_refreshed && sync.synced_keys.contains(&String::from("a")));
    assert_eq!((sync.attempts, sync.last_at), (0, None));
    sync.on_outcome(outcome(false, &[]));
    assert_eq!(
        sync.on_command(AssetCommand::ClearCache),
        AfterCommand::Start {
            clear_cache: true,
            merge: MergePlan { merge: true, force: true, store: false },
        }
    );
    assert!(!sync.index_refreshed && !sync.synced_keys.contains(&String::from("a")));
    let fetch = fetch_all(AssetSourcePreference::OpenLogi, vec![target("a")], vec![target("cam")]);
    let keys: Vec<String> = fetch.targets.into_iter().map(|t| t.key).collect();
    assert_eq!(keys, vec![String::from("a"), String::from("cam")]);
}

#[test]
fn only_a_ready_agent_replaces_the_lists() {
    let mut sync = AssetSync::new(true);
    sync.dirty = true;
    let mut latest = Latest { devices: vec![1, 2], standalone: vec!['a'] };
    let plan = sync.on_report(&mut latest, InventoryHealth::Scanning, Vec::new(), Vec::new());
    assert_eq!(plan, MergePlan { merge: false, force: false, store: false });
    assert_eq!((latest.devices.clone(), sync.dirty), (vec![1, 2], true));
    let plan = sync.on_report(&mut latest, InventoryHealth::Ready, vec![3], Vec::new());
    assert_eq!(plan, MergePlan { merge: true, force: true, store: true });
    assert_eq!((latest.devices, latest.standalone.len(), sync.dirty), (vec![3], 0, false));
}

#[test]
fn an_unforced_report_is_stored_all_the_same() {
    let mut sync = AssetSync::new(true);
    let mut latest: Latest<u8, char> = Latest { devices: Vec::new(), standalone: Vec::new() };
    let plan = sync.on_report(&mut latest, InventoryHealth::Ready, vec![4], vec!['s']);
    assert_eq!(plan, MergePlan { merge: true, force: false, store: true });
    assert_eq!((latest.devices, latest.standalone), (vec![4], vec!['s']));
}

#[test]
fn an_outcome_names_what_was_asked_for() {
    let fetch = fetch_all(AssetSourcePreference::Automatic, vec![target("b")], vec![target("a")]);
    assert_eq!(fetch.keys(), vec![String::from("b"), String::from("a")]);
    let failed = fetch.outcome(false);
    assert!(!failed.ok);
    assert_eq!(failed.keys, fetch.keys());
    assert!(fetch.outcome(true).ok);
}

#[test]
fn fetched_models_are_asked_for_no_more() {
    let mut sync = AssetSync::new(true);
    let all = || vec![target("a"), target("b"), target("a")];
    let fetch = sync
        .arm(true, AssetSourcePreference::Automatic, 0, 0, all(), Vec::new())
        .expect("nothing has been fetched");
    sync.on_outcome(fetch.outcome(true));
    assert!(sync.arm(true, AssetSourcePreference::Automatic, 0, 0, all(), Vec::new()).is_none());
}

fn status(inventory: InventoryHealth, details: &str) -> AgentStatus {
    AgentStatus { inventory, details: String::from(details) }
}

#[test]
fn a_repeated_notice_redraws_nothing() {
    let mut view = AgentView::new();
    assert!(matches!(view.link, AgentLink::Connecting));
    assert!(view.set_agent_link(AgentLink::Unreachable));
    assert!(!view.set_agent_link(AgentLink::Unreachable));
    assert!(view.set_agent_link(LinkDown::OutdatedGui.link()));
    assert!(!view.set_agent_link(AgentLink::OutdatedGui));
    assert!(matches!(view.link, AgentLink::OutdatedGui));
    assert!(matches!(LinkDown::Unreachable.link(), AgentLink::Unreachable));
    assert!(view.set_agent_link(AgentLink::Ready(status(InventoryHealth::Ready, "1.0"))));
    assert!(!view.set_agent_link(AgentLink::Ready(status(InventoryHealth::Ready, "1.0"))));
    assert!(view.set_agent_link(AgentLink::Ready(status(InventoryHealth::Ready, "1.1"))));
    assert!(view.set_agent_link(AgentLink::Ready(status(InventoryHealth::Scanning, "1.1"))));
}

#[test]
fn every_report_sets_the_link_and_the_camera_mark() {
    let nothing = RedrawPlan { refresh_windows: false, rebuild_menu: false };
    let windows = RedrawPlan { refresh_windows: true, rebuild_menu: false };
    let both = RedrawPlan { refresh_windows: true, rebuild_menu: true };
    let ready = || status(InventoryHealth::Ready, "x");

    let mut view = AgentView::new();
    assert_eq!(view.on_report(ready(), true, true, false), both);
    assert!(view.link.same(&AgentLink::Ready(ready())));
    assert!(view.camera_active);
    assert_eq!(view.on_report(ready(), true, false, false), nothing);
    assert_eq!(view.on_report(ready(), true, true, false), both);
    assert_eq!(view.on_report(ready(), true, false, true), windows);
    assert_eq!(view.on_report(ready(), false, false, false), windows);
    assert!(!view.camera_active);
    let scanning = status(InventoryHealth::Scanning, "x");
    assert_eq!(view.on_report(scanning, false, false, false), windows);
    assert!(!view.link.same(&AgentLink::Ready(ready())));
    assert!(!view.set_camera_active(false) && view.set_camera_active(true));
}

#[test]
fn without_a_window_nothing_is_searched_and_the_program_ends() {
    assert!(looks_for_cameras(false) && !looks_for_cameras(true));
    assert!(quits_after_close(true) && !quits_after_close(false));
}

fn cameras(names: &[&str]) -> Vec<String> {
    names.iter().map(|name| String::from(*name)).collect()
}

#[test]
fn cameras_get_two_empty_searches_of_grace() {
    let mut scan = CameraScan::new(cameras(&["c920"]));
    assert!(!scan.on_scan(Vec::new()));
    assert!(!scan.on_scan(Vec::new()));
    assert_eq!((scan.cameras.len(), scan.misses), (1, 2));
    assert!(scan.on_scan(Vec::new()));
    assert_eq!((scan.cameras.len(), scan.misses), (0, 0));
    assert!(!scan.on_scan(Vec::new()));
    assert!(scan.on_scan(cameras(&["brio"])));
    assert!(!scan.on_scan(Vec::new()));
    assert!(!scan.on_scan(cameras(&["brio"])));
    assert_eq!((scan.cameras, scan.misses), (cameras(&["brio"]), 0));
}

#[test]
fn cameras_are_told_apart() {
    let both = cameras(&["brio", "c920"]);
    assert!(!cameras_differ(&both, &cameras(&["brio", "c920"])));
    assert!(cameras_differ(&both, &cameras(&["c920", "brio"])));
    assert!(cameras_differ(&both, &cameras(&["brio"])));
    assert!(cameras_differ(&both, &Vec::new()));
    assert!(!cameras_differ::<String>(&Vec::new(), &Vec::new()));
    let mut scan = CameraScan::new(both);
    assert!(scan.on_scan(cameras(&["brio", "c930"])));
    assert_eq!(scan.cameras, cameras(&["brio", "c930"]));
}

#[test]
fn a_wipe_redraws_what_it_changed() {
    assert_eq!(
        redraw_after_wipe(true),
        RedrawPlan { refresh_windows: true, rebuild_menu: false }
    );
    assert_eq!(
        redraw_after_wipe(false),
        RedrawPlan { refresh_windows: false, rebuild_menu: false }
    );
}

#[test]
fn side_windows_need_the_main_window() {
    assert_eq!(dispatch_gui_command(DeeplinkCommand::Quit, true), vec![GuiStep::Quit]);
    assert_eq!(
        dispatch_gui_command(DeeplinkCommand::Show, false),
        vec![GuiStep::OpenMainWindow]
    );
    assert_eq!(
        dispatch_gui_command(DeeplinkCommand::OpenSettings, true),
        vec![GuiStep::OpenMainWindow, GuiStep::OpenSettings]
    );
    assert_eq!(
        dispatch_gui_command(DeeplinkCommand::OpenAbout, false),
        vec![GuiStep::OpenAbout]
    );
    assert_eq!(
        dispatch_gui_command(DeeplinkCommand::CheckForUpdates, true),
        vec![GuiStep::OpenMainWindow, GuiStep::CheckForUpdates]
    );
}

#[test]
fn update_consent_is_asked_once() {
    let mut settings = AppSettings::default();
    assert!(asks_for_update_consent(Some(&settings)));
    settings.update_prompt_seen = true;
    assert!(!asks_for_update_consent(Some(&settings)));
    assert!(!asks_for_update_consent(None));
}

#[test]
fn closed_feed_counts_as_unreachable() {
    let mut feed = UpdateFeed { open: true };
    assert_eq!(feed.on_update(UpdateKind::Snapshot), UpdateStep::ApplySnapshot);
    assert_eq!(
        feed.on_update(UpdateKind::OutdatedGui),
        UpdateStep::SetLink(LinkDown::OutdatedGui)
    );
    assert!(feed.open);
    assert_eq!(
        feed.on_update(UpdateKind::Closed),
        UpdateStep::SetLink(LinkDown::Unreachable)
    );
    assert!(!feed.open);
    assert!(refreshes_windows(UpdateStep::ApplyPairingFailure, false));
    assert!(!refreshes_windows(UpdateStep::ApplyLightResult, false));
    assert!(refreshes_windows(UpdateStep::ApplyReloadResult, true));
    assert!(!refreshes_windows(UpdateStep::ApplySnapshot, true));
}

#[test]
fn main_window_is_focused_or_opened() {
    let mut registry: WindowRegistry<u64> = WindowRegistry { main: None };
    assert_eq!(registry.open_main_window(true), OpenStep::OpenNew);
    assert_eq!(registry.on_opened(Some(4)), OpenedStep::Focus(4));
    assert_eq!(registry.open_main_window(true), OpenStep::ActivateProgram);
    assert_eq!(registry.open_main_window(false), OpenStep::OpenNew);
    assert_eq!(registry.on_opened(None), OpenedStep::Report);
    assert_eq!(registry.main, Some(4));
    let geometry = main_window_geometry();
    assert_eq!((geometry.width, geometry.height), (1100, 750));
    assert_eq!((geometry.min_width, geometry.min_height), (720, 680));
    assert_eq!(main_window_title(), "OpenLogi");
}

#[test]
fn general_page_fits_the_platform() {
    let page = general_page(Platform::Linux);
    assert_eq!(page.title, "General");
    assert!(!page.resettable);
    assert_eq!(page.items.len(), 2);
    assert_eq!(page.items[0].control, Control::SensitivitySlider);
    assert_eq!(page.items[1].description, "Automatically start OpenLogi when you log in.");
    let mac = general_page(Platform::MacOs);
    assert_eq!(mac.items[2].title, "Show in menu bar");
    let windows = general_page(Platform::Windows);
    assert_eq!(windows.items[2].title, "Show in the notification area");
    assert_eq!(windows.items[2].control, Control::Switch(Toggle::ShowInMenuBar));
}

#[test]
fn switches_show_what_they_set() {
    let mut settings = AppSettings::default();
    assert!(!Toggle::LaunchAtLogin.value(Some(&settings)));
    Toggle::LaunchAtLogin.set(&mut settings, true);
    assert!(Toggle::LaunchAtLogin.value(Some(&settings)));
    assert!(Toggle::ShowInMenuBar.value(Some(&settings)));
    Toggle::ShowInMenuBar.set(&mut settings, false);
    assert!(!Toggle::ShowInMenuBar.value(Some(&settings)));
    assert!(!Toggle::LaunchAtLogin.value(None));
}

#[test]
fn sensitivity_field_marks_the_default() {
    let field = sensitivity_field(18, "Default");
    assert_eq!(field.text, "18");
    assert_eq!(field.caption.as_deref(), Some("(Default)"));
    let field = sensitivity_field(100, "Default");
    assert_eq!((field.text.as_str(), field.caption), ("100", None));
    assert_eq!(sensitivity_field(0, "x").text, "0");
    assert_eq!(sensitivity_field(-7, "x").text, "-7");
}
