//! What the decisions of the desktop program come to.

#![allow(unused_imports)]

use crate::config::settings::{AppSettings, AssetSourcePreference};
use crate::desktop::agent::{
    redraw_after_wipe, AgentLink, AgentModel, AgentStatus, AgentView, InventoryHealth, LinkModel,
    RedrawPlan, StatusModel,
};
use crate::desktop::asset_sync::{
    are_keys_of, backoff_passed, fetch_all, merge_after_command, pending_model, AfterCommand,
    AfterOutcome, AssetCommand, AssetSync, AssetTarget, Fetch, Latest, MergePlan, SyncModel,
    SyncOutcome, SyncState,
};
use crate::desktop::camera_scan::{
    looks_for_cameras, overlooked, views_of, CameraScan, CAMERA_GRACE,
};
use crate::desktop::commands::{
    anchor_model, asks_for_update_consent, quits_after_close, steps_model, DeeplinkCommand, GuiStep,
};
use crate::desktop::general_page::{
    general_page, items_model, sensitivity_field, Control, GeneralPage, Platform,
    SensitivityField, SettingItem, Toggle,
};
use crate::desktop::updates::{
    refreshes_windows, step_model, LinkDown, UpdateFeed, UpdateKind, UpdateStep,
};
use crate::desktop::window::{
    main_window_geometry, main_window_title, OpenStep, OpenedStep, WindowGeometry, WindowRegistry,
};
use crate::table::Key;
use crate::text::decimal;
use vstd::prelude::*;

verus! {

/// The delay is over exactly where there was no attempt yet, or at least the
/// delay has passed since the last one.
pub proof fn a_delay_ends(at: u64, now: u64, delay: u64)
    ensures
        backoff_passed(None, now, delay),
        backoff_passed(Some(at), now, 0),
        delay > 0 ==> (backoff_passed(Some(at), now, delay) <==> now >= at + delay),
{
}

/// An automatic fetch starts exactly where downloads are wanted, the build has
/// them, none is running, there was no attempt yet or the delay since the last
/// one is over, and the index or a model is missing. How many attempts there
/// were, and whether new images wait to be shown, does not matter.
pub proof fn a_fetch_starts_when_it_is_due<T>(
    s: SyncModel,
    auto_download: bool,
    now: u64,
    delay: u64,
    pending: Seq<AssetTarget<T>>,
    attempts: u32,
    dirty: bool,
)
    ensures
        s.starts(auto_download, now, delay, pending) <==> {
            &&& auto_download && s.enabled
            &&& s.state == SyncState::Idle
            &&& s.last_at is None || now >= s.last_at->0 + delay || delay == 0
            &&& !s.index_refreshed || pending != Seq::<AssetTarget<T>>::empty()
        },
        (SyncModel { attempts, dirty, ..s }).starts(auto_download, now, delay, pending)
            == s.starts(auto_download, now, delay, pending),
{
    if pending.len() == 0 {
        assert(pending =~= Seq::<AssetTarget<T>>::empty());
    }
}

/// The memory after failed automatic attempts at the given times.
pub open spec fn after_failures(
    s: SyncModel,
    times: Seq<u64>,
    keys: Set<Seq<char>>,
) -> SyncModel
    decreases times.len(),
{
    if times.len() == 0 {
        s
    } else {
        after_failures(s, times.drop_last(), keys).started(times.last()).ended(false, keys)
    }
}

/// After any number of failures an attempt that comes late enough starts, with
/// everything that was missing still missing.
pub proof fn failures_never_stop_the_attempts<T>(
    s: SyncModel,
    times: Seq<u64>,
    keys: Set<Seq<char>>,
    now: u64,
    delay: u64,
    targets: Seq<AssetTarget<T>>,
)
    requires
        s.enabled,
        s.state == SyncState::Idle,
        !s.index_refreshed,
        times.len() > 0,
        now >= times.last() + delay,
    ensures
        ({
            let after = after_failures(s, times, keys);
            &&& after.starts(true, now, delay, pending_model(targets, after.synced))
            &&& pending_model(targets, after.synced) == pending_model(targets, s.synced)
            &&& after.attempts == u32::MAX || after.attempts == s.attempts + times.len()
        }),
{
    lemma_failures(s, times, keys);
}

/// Failures change the number of attempts and the time of the last one only.
proof fn lemma_failures(s: SyncModel, times: Seq<u64>, keys: Set<Seq<char>>)
    requires
        s.state == SyncState::Idle,
    ensures
        ({
            let after = after_failures(s, times, keys);
            &&& after.state == SyncState::Idle
            &&& after.enabled == s.enabled
            &&& after.index_refreshed == s.index_refreshed
            &&& after.synced == s.synced
            &&& after.dirty == s.dirty
            &&& times.len() > 0 ==> after.last_at == Some(times.last())
            &&& after.attempts == u32::MAX || after.attempts == s.attempts + times.len()
        }),
    decreases times.len(),
{
    if times.len() > 0 {
        lemma_failures(s, times.drop_last(), keys);
    }
}

/// An automatic fetch that starts runs with no command waiting, counts as one
/// more attempt up to the highest number, and keeps its time; nothing else
/// changes.
pub proof fn a_started_fetch_counts_as_an_attempt(s: SyncModel, now: u64)
    ensures
        s.started(now).state == (SyncState::Running { deferred: None }),
        s.attempts < u32::MAX ==> s.started(now).attempts == s.attempts + 1,
        s.attempts == u32::MAX ==> s.started(now).attempts == u32::MAX,
        s.started(now).last_at == Some(now),
        s.started(now).enabled == s.enabled,
        s.started(now).index_refreshed == s.index_refreshed,
        s.started(now).synced == s.synced,
        s.started(now).dirty == s.dirty,
{
}

/// Of a list only the models that have not been fetched are missing, in their
/// order: one more model is missing exactly where its images have not been.
pub proof fn one_more_model_is_missing_or_fetched<T>(
    targets: Seq<AssetTarget<T>>,
    target: AssetTarget<T>,
    synced: Set<Seq<char>>,
)
    ensures
        pending_model(Seq::<AssetTarget<T>>::empty(), synced) == Seq::<AssetTarget<T>>::empty(),
        synced.contains(target.key@) ==> pending_model(targets.push(target), synced)
            == pending_model(targets, synced),
        !synced.contains(target.key@) ==> pending_model(targets.push(target), synced)
            == pending_model(targets, synced).push(target),
{
    reveal(Seq::filter);
    assert(targets.push(target).drop_last() =~= targets);
    assert(pending_model(Seq::<AssetTarget<T>>::empty(), synced) =~= Seq::<
        AssetTarget<T>,
    >::empty());
}

/// A running fetch and the command that waits for it are read off the state.
pub proof fn a_command_waits_inside_a_running_fetch(s: SyncModel, waiting: Option<AssetCommand>)
    ensures
        s.state == SyncState::Idle ==> !s.running() && s.deferred() is None,
        s.state == (SyncState::Running { deferred: waiting }) ==> s.running() && s.deferred()
            == waiting,
{
}

/// A command that comes while nothing runs starts a fetch at once and forgets
/// the attempts before it. A wipe forgets what was fetched, the index among it;
/// a refresh does not.
pub proof fn a_command_starts_a_fetch_at_once(s: SyncModel, command: AssetCommand)
    requires
        s.state == SyncState::Idle,
    ensures
        ({
            let after = s.commanded(command);
            &&& after.state == (SyncState::Running { deferred: None })
            &&& after.attempts == 0
            &&& after.last_at is None
            &&& command == AssetCommand::ClearCache ==> after.synced == Set::<Seq<char>>::empty()
                && !after.index_refreshed
            &&& command == AssetCommand::Refresh ==> after.synced == s.synced
                && after.index_refreshed == s.index_refreshed
            &&& after.enabled == s.enabled
            &&& after.dirty == s.dirty
        }),
{
}

/// A command that comes during a fetch waits: the last one does, unless a wipe
/// waits already. Nothing is forgotten and nothing started meanwhile.
pub proof fn a_command_waits_for_a_running_fetch(
    s: SyncModel,
    waiting: Option<AssetCommand>,
    command: AssetCommand,
)
    requires
        s.state == (SyncState::Running { deferred: waiting }),
    ensures
        ({
            let after = s.commanded(command);
            &&& waiting == Some(AssetCommand::ClearCache) ==> after.state == (SyncState::Running {
                deferred: Some(AssetCommand::ClearCache),
            })
            &&& waiting != Some(AssetCommand::ClearCache) ==> after.state == (SyncState::Running {
                deferred: Some(command),
            })
            &&& after == (SyncModel { state: after.state, ..s })
        }),
{
}

/// A fetch that succeeded has the index and the models that it asked for, takes
/// the delay away and marks that there are new images; one that failed leaves
/// everything as it was. Either way nothing runs any more.
pub proof fn a_fetch_ends(s: SyncModel, keys: Set<Seq<char>>, key: Seq<char>)
    ensures
        ({
            let done = s.ended(true, keys);
            let failed = s.ended(false, keys);
            &&& done.state == SyncState::Idle && failed.state == SyncState::Idle
            &&& done.attempts == 0 && done.last_at is None
            &&& done.index_refreshed && done.dirty
            &&& done.synced.contains(key) <==> s.synced.contains(key) || keys.contains(key)
            &&& done.enabled == s.enabled
            &&& failed.attempts == s.attempts && failed.last_at == s.last_at
            &&& failed.index_refreshed == s.index_refreshed && failed.dirty == s.dirty
            &&& failed.synced == s.synced
            &&& failed.enabled == s.enabled
        }),
{
}

/// A report of an agent that has listed all devices uses up the mark of new
/// images; no report changes anything else.
pub proof fn a_report_uses_up_the_mark_only(s: SyncModel, ready: bool)
    ensures
        s.reported(true).dirty == false,
        s.reported(false).dirty == s.dirty,
        s.reported(ready).state == s.state,
        s.reported(ready).attempts == s.attempts,
        s.reported(ready).last_at == s.last_at,
        s.reported(ready).index_refreshed == s.index_refreshed,
        s.reported(ready).synced == s.synced,
        s.reported(ready).enabled == s.enabled,
{
}

/// A wipe has the devices merged again though they have not changed; a refresh
/// merges nothing. Neither keeps devices as reported.
pub proof fn a_wipe_forces_a_merge()
    ensures
        merge_after_command(AssetCommand::ClearCache).merge,
        merge_after_command(AssetCommand::ClearCache).force,
        !merge_after_command(AssetCommand::ClearCache).store,
        !merge_after_command(AssetCommand::Refresh).merge,
        !merge_after_command(AssetCommand::Refresh).force,
        !merge_after_command(AssetCommand::Refresh).store,
{
}

/// The keys of targets are as many as the targets, and each is that of the
/// target at its place.
pub proof fn keys_stand_at_the_places_of_their_targets<T>(
    keys: Seq<String>,
    targets: Seq<AssetTarget<T>>,
    i: int,
)
    requires
        are_keys_of(keys, targets),
    ensures
        keys.len() == targets.len(),
        0 <= i < targets.len() ==> keys[i]@ == targets[i].key@,
{
}

/// The background download stands for what it remembers.
pub proof fn a_download_stands_for_what_it_remembers(sync: AssetSync)
    ensures
        sync@.enabled == sync.enabled,
        sync@.state == sync.state,
        sync@.attempts == sync.attempts,
        sync@.last_at == sync.last_at,
        sync@.index_refreshed == sync.index_refreshed,
        sync@.synced == sync.synced_keys@,
        sync@.dirty == sync.dirty,
{
}

/// Two links are the same exactly where they are of one kind and, for an agent
/// that answers, it says the same of itself.
pub proof fn links_are_told_apart(a: AgentLink, b: AgentLink)
    ensures
        a@ == b@ <==> {
            ||| a is Connecting && b is Connecting
            ||| a is Unreachable && b is Unreachable
            ||| a is OutdatedGui && b is OutdatedGui
            ||| a is Ready && b is Ready && a->Ready_0.inventory == b->Ready_0.inventory
                && a->Ready_0.details@ == b->Ready_0.details@
        },
{
}

/// A link that is set is the one that is known, the windows are redrawn exactly
/// where it is another one than before, and the cameras stay as they were.
pub proof fn a_new_link_redraws_the_windows(s: AgentModel, link: LinkModel)
    ensures
        s.linked(link).link == link,
        s.linked(link).camera_active == s.camera_active,
        s.link_refreshes(link) <==> !(s.link == link),
        !s.link_refreshes(s.link),
{
}

/// After a report the agent is known to be ready with the reported status, and
/// the cameras are as reported, whatever was known before.
pub proof fn a_report_replaces_what_was_known(
    s: AgentModel,
    status: StatusModel,
    camera_active: bool,
)
    ensures
        s.reported(status, camera_active).link == LinkModel::Ready(status),
        s.reported(status, camera_active).camera_active == camera_active,
{
}

/// What is known of the agent stands for its link and the mark of the cameras.
pub proof fn a_view_of_the_agent_stands_for_its_parts(view: AgentView, status: AgentStatus)
    ensures
        view@.link == view.link@,
        view@.camera_active == view.camera_active,
        status@.inventory == status.inventory,
        status@.details == status.details@,
{
}

/// Each message asks for its own step: only a report is merged, only the notices
/// of a missing or newer agent and the end of the messages set the link, and
/// only the three answers are taken in as such.
pub proof fn each_message_asks_for_its_step(kind: UpdateKind)
    ensures
        step_model(kind) == UpdateStep::ApplySnapshot <==> kind == UpdateKind::Snapshot,
        step_model(kind) == UpdateStep::SetLink(LinkDown::Unreachable) <==> kind
            == UpdateKind::Unreachable || kind == UpdateKind::Closed,
        step_model(kind) == UpdateStep::SetLink(LinkDown::OutdatedGui) <==> kind
            == UpdateKind::OutdatedGui,
        step_model(kind) == UpdateStep::ApplyLightResult <==> kind
            == UpdateKind::LightCommandResult,
        step_model(kind) == UpdateStep::ApplyPairingFailure <==> kind
            == UpdateKind::PairingUndeliverable,
        step_model(kind) == UpdateStep::ApplyReloadResult <==> kind
            == UpdateKind::ConfigReloadResult,
{
}

/// A search is overlooked exactly where it found nothing, cameras are shown, and
/// fewer than two in a row were overlooked before it.
pub proof fn two_empty_searches_are_overlooked(found: nat, shown: nat, misses: int)
    ensures
        CAMERA_GRACE == 2,
        found > 0 ==> !overlooked(found, shown, misses),
        shown == 0 ==> !overlooked(found, shown, misses),
        shown > 0 ==> (overlooked(0, shown, misses) <==> misses < 2),
{
}

/// A list of cameras stands for its cameras, each at its place.
pub proof fn cameras_stand_at_their_places<C: Key>(cameras: Seq<C>, i: int)
    ensures
        views_of(cameras).len() == cameras.len(),
        0 <= i < cameras.len() ==> views_of(cameras)[i] == cameras[i]@,
{
}

/// The last step of a command is its own. Before it the main window comes up
/// exactly where a side window is to open and no window is open.
pub proof fn a_command_ends_with_its_own_step(command: DeeplinkCommand, no_window: bool)
    ensures
        ({
            let steps = steps_model(command, no_window);
            let side = command == DeeplinkCommand::OpenSettings || command
                == DeeplinkCommand::OpenAbout || command == DeeplinkCommand::CheckForUpdates;
            &&& steps.len() == if side && no_window {
                2int
            } else {
                1int
            }
            &&& side && no_window ==> steps[0] == GuiStep::OpenMainWindow
            &&& steps.last() == GuiStep::Quit <==> command == DeeplinkCommand::Quit
            &&& steps.last() == GuiStep::OpenMainWindow <==> command == DeeplinkCommand::Show
            &&& steps.last() == GuiStep::OpenSettings <==> command == DeeplinkCommand::OpenSettings
            &&& steps.last() == GuiStep::OpenAbout <==> command == DeeplinkCommand::OpenAbout
            &&& steps.last() == GuiStep::CheckForUpdates <==> command
                == DeeplinkCommand::CheckForUpdates
            &&& anchor_model(true).len() == 1 && anchor_model(true)[0] == GuiStep::OpenMainWindow
            &&& anchor_model(false).len() == 0
        }),
{
}

/// The page has the slider for the thumb wheel first and the switch for the
/// start at login second; a switch for the icon comes third, but not on Linux,
/// which has no place for one.
pub proof fn the_page_has_its_entries_in_order(platform: Platform)
    ensures
        ({
            let items = items_model(platform);
            &&& items.len() == if platform == Platform::Linux {
                2int
            } else {
                3int
            }
            &&& items[0].control == Control::SensitivitySlider
            &&& items[0].title == "Thumb Wheel Sensitivity"@
            &&& items[0].description
                == "Scales the thumb wheel's horizontal scroll speed, native zoom speed, and how readily custom wheel actions trigger."@
            &&& items[1].control == Control::Switch(Toggle::LaunchAtLogin)
            &&& items[1].title == "Launch at login"@
            &&& platform != Platform::Linux ==> items[2].control == Control::Switch(
                Toggle::ShowInMenuBar,
            )
        }),
{
}

/// The wording of an entry fits the platform: only macOS is named, and only it
/// has a menu bar.
pub proof fn the_wording_fits_the_platform(platform: Platform)
    ensures
        ({
            let items = items_model(platform);
            &&& platform == Platform::MacOs ==> items[1].description
                == "Automatically start OpenLogi when you log in to macOS."@ && items[2].title
                == "Show in menu bar"@ && items[2].description
                == "Keep OpenLogi's icon in the menu bar. When off, it stays in the Dock instead."@
            &&& platform == Platform::Windows ==> items[2].title
                == "Show in the notification area"@ && items[2].description
                == "Keep OpenLogi's icon in the taskbar notification area. Takes effect the next time the background agent starts."@
            &&& platform != Platform::MacOs ==> items[1].description
                == "Automatically start OpenLogi when you log in."@
        }),
{
}

/// An entry stands for its texts and its control, and a switch for the one
/// preference that it is named after.
pub proof fn an_entry_stands_for_its_parts(item: SettingItem, settings: AppSettings)
    ensures
        item@.title == item.title@,
        item@.description == item.description@,
        item@.control == item.control,
        Toggle::LaunchAtLogin.of(settings) == settings.launch_at_login,
        Toggle::ShowInMenuBar.of(settings) == settings.show_in_menu_bar,
{
}

/// The windows are redrawn after a failed pairing in any case, never for a
/// report as such, and after any other step exactly where it changed something.
pub proof fn a_step_redraws_what_it_changed(step: UpdateStep, changed: bool, refreshes: bool)
    requires
        call_ensures(refreshes_windows, (step, changed), refreshes),
    ensures
        step == UpdateStep::ApplyPairingFailure ==> refreshes,
        step == UpdateStep::ApplySnapshot ==> !refreshes,
        step is SetLink || step is ApplyLightResult || step is ApplyReloadResult ==> refreshes
            == changed,
{
}

/// A feed that has ended is not read again, and only its end ends it.
pub proof fn only_the_end_closes_a_feed(
    feed: &mut UpdateFeed,
    kind: UpdateKind,
    step: UpdateStep,
)
    requires
        call_ensures(UpdateFeed::on_update, (feed, kind), step),
    ensures
        kind == UpdateKind::Closed ==> !final(feed).open,
        kind != UpdateKind::Closed ==> final(feed).open == old(feed).open,
        kind == UpdateKind::Closed ==> step == UpdateStep::SetLink(LinkDown::Unreachable),
{
}

/// A link that is down is the one that it is named after.
pub proof fn a_link_that_is_down_keeps_its_kind(down: LinkDown, link: AgentLink)
    requires
        call_ensures(LinkDown::link, (down,), link),
    ensures
        link is Unreachable <==> down == LinkDown::Unreachable,
        link is OutdatedGui <==> down == LinkDown::OutdatedGui,
{
}

/// After a report the link is ready with the reported status and the cameras are
/// as reported, whatever the merge gave. The windows are redrawn exactly where
/// the devices, the link, the cameras or the pairing changed, and the menu
/// exactly where the devices did.
pub proof fn a_report_is_taken_in_and_redrawn(
    view: &mut AgentView,
    status: AgentStatus,
    camera_active: bool,
    merged: bool,
    pairing_changed: bool,
    plan: RedrawPlan,
)
    requires
        call_ensures(
            AgentView::on_report,
            (view, status, camera_active, merged, pairing_changed),
            plan,
        ),
    ensures
        final(view).link == AgentLink::Ready(status),
        final(view).camera_active == camera_active,
        plan.rebuild_menu == merged,
        merged || pairing_changed ==> plan.refresh_windows,
        old(view).camera_active != camera_active ==> plan.refresh_windows,
        old(view).link@ != AgentLink::Ready(status)@ ==> plan.refresh_windows,
        !merged && !pairing_changed && old(view).camera_active == camera_active && old(view).link@
            == AgentLink::Ready(status)@ ==> !plan.refresh_windows,
{
}

/// A wipe never rebuilds the menu, and redraws the windows exactly where the
/// merge changed something.
pub proof fn a_wipe_redraws_the_windows_only(merged: bool, plan: RedrawPlan)
    requires
        call_ensures(redraw_after_wipe, (merged,), plan),
    ensures
        plan.refresh_windows == merged,
        !plan.rebuild_menu,
{
}

/// The lists of an agent that has listed all devices replace the last ones, are
/// merged, with force where new images are there, and kept; those of one that is
/// still looking do none of this and use up no mark.
pub proof fn only_a_complete_list_counts<D, S>(
    sync: &mut AssetSync,
    latest: &mut Latest<D, S>,
    inventory: InventoryHealth,
    devices: Vec<D>,
    standalone: Vec<S>,
    plan: MergePlan,
)
    requires
        call_ensures(
            AssetSync::on_report::<D, S>,
            (sync, latest, inventory, devices, standalone),
            plan,
        ),
    ensures
        inventory is Ready ==> {
            &&& final(latest).devices == devices && final(latest).standalone == standalone
            &&& plan.merge && plan.store
            &&& plan.force == old(sync).dirty
            &&& !final(sync).dirty
        },
        inventory is Scanning ==> {
            &&& *final(latest) == *old(latest)
            &&& !plan.merge && !plan.store && !plan.force
            &&& final(sync).dirty == old(sync).dirty
        },
        final(sync).state == old(sync).state,
        final(sync).attempts == old(sync).attempts,
        final(sync).last_at == old(sync).last_at,
        final(sync).enabled == old(sync).enabled,
        final(sync).index_refreshed == old(sync).index_refreshed,
        final(sync).synced_keys@ == old(sync).synced_keys@,
{
}

/// A fetch starts exactly where it is due, whatever number of attempts came
/// before, from the source that was asked for and of every model and camera that
/// is missing; otherwise nothing changes.
pub proof fn what_is_missing_is_fetched_when_it_is_due<T>(
    sync: &mut AssetSync,
    auto_download: bool,
    source: AssetSourcePreference,
    now: u64,
    delay: u64,
    models: Vec<AssetTarget<T>>,
    cameras: Vec<AssetTarget<T>>,
    fetch: Option<Fetch<T>>,
    i: int,
)
    requires
        call_ensures(
            AssetSync::arm::<T>,
            (sync, auto_download, source, now, delay, models, cameras),
            fetch,
        ),
        0 <= i < models@.len() + cameras@.len(),
        !old(sync).synced_keys@.contains((models@ + cameras@)[i].key@),
    ensures
        fetch is Some <==> auto_download && old(sync).enabled && old(sync).state is Idle && (old(
            sync,
        ).last_at is None || now >= old(sync).last_at->0 + delay || delay == 0),
        fetch matches Some(f) ==> f.source == source && f.targets@.contains(
            (models@ + cameras@)[i],
        ) && final(sync).state == (SyncState::Running { deferred: None }) && final(sync).last_at
            == Some(now),
        fetch is None ==> final(sync)@ == old(sync)@,
        final(sync).synced_keys@ == old(sync).synced_keys@,
{
    let targets = models@ + cameras@;
    let wanted = |t: AssetTarget<T>| !old(sync).synced_keys@.contains(t.key@);
    assert(wanted(targets[i]));
    targets.lemma_filter_contains(wanted, i);
    assert(pending_model(targets, old(sync)@.synced).contains(targets[i]));
    assert(old(sync)@.synced == old(sync).synced_keys@);
}

/// A command for everything fetches every model and then every camera, fetched
/// or not, from the source that was asked for.
pub proof fn a_command_fetches_everything<T>(
    source: AssetSourcePreference,
    models: Vec<AssetTarget<T>>,
    cameras: Vec<AssetTarget<T>>,
    fetch: Fetch<T>,
    i: int,
)
    requires
        call_ensures(fetch_all::<T>, (source, models, cameras), fetch),
    ensures
        fetch.source == source,
        fetch.targets@.len() == models@.len() + cameras@.len(),
        0 <= i < models@.len() ==> fetch.targets@[i] == models@[i],
        0 <= i < cameras@.len() ==> fetch.targets@[models@.len() + i] == cameras@[i],
{
}

/// A command during a fetch waits and has nothing done; one that comes at rest
/// wipes exactly where it is a wipe, which then is merged with force.
pub proof fn a_command_waits_or_starts(
    sync: &mut AssetSync,
    command: AssetCommand,
    after: AfterCommand,
)
    requires
        call_ensures(AssetSync::on_command, (sync, command), after),
    ensures
        old(sync).state is Running <==> after is Wait,
        final(sync).state is Running,
        old(sync).state is Running ==> final(sync).synced_keys@ == old(sync).synced_keys@,
        after matches AfterCommand::Start { clear_cache, merge } ==> (clear_cache <==> command
            == AssetCommand::ClearCache) && merge.merge == clear_cache && merge.force
            == clear_cache && !merge.store,
        after is Start && command == AssetCommand::ClearCache ==> final(sync).synced_keys@
            == Set::<Seq<char>>::empty() && !final(sync).index_refreshed,
{
}

/// At the end of a fetch the images are looked through exactly where it
/// succeeded, and the command that waited is issued again either way.
pub proof fn the_end_of_a_fetch_lets_the_command_go(
    sync: &mut AssetSync,
    outcome: SyncOutcome,
    after: AfterOutcome,
    waiting: Option<AssetCommand>,
)
    requires
        call_ensures(AssetSync::on_outcome, (sync, outcome), after),
        old(sync).state == (SyncState::Running { deferred: waiting }),
    ensures
        after.reissue == waiting,
        after.rebuild_resolver == outcome.ok,
        final(sync).state is Idle,
        outcome.ok ==> final(sync).dirty && final(sync).index_refreshed,
        !outcome.ok ==> final(sync).dirty == old(sync).dirty && final(sync).attempts == old(
            sync,
        ).attempts,
{
}

/// Cameras are looked for exactly while there is a window, and the program ends
/// exactly with the last one.
pub proof fn the_last_window_ends_the_program(no_window: bool, looks: bool, quits: bool)
    requires
        call_ensures(looks_for_cameras, (no_window,), looks),
        call_ensures(quits_after_close, (no_window,), quits),
    ensures
        quits == no_window,
        looks == !no_window,
        looks != quits,
{
}

/// The user is asked about updates exactly where there are preferences that say
/// they were not asked yet.
pub proof fn the_user_is_asked_once(
    settings: AppSettings,
    asks: bool,
    without: bool,
)
    requires
        call_ensures(asks_for_update_consent, (Some(&settings),), asks),
        call_ensures(asks_for_update_consent, (None,), without),
    ensures
        asks == !settings.update_prompt_seen,
        !without,
{
}

/// A main window that took the focus is used again and a new one is opened only
/// without one; a window that was opened becomes the main one, and a failure
/// changes nothing.
pub proof fn there_is_one_main_window<H: Copy>(
    registry: &mut WindowRegistry<H>,
    focused: bool,
    step: OpenStep,
    opened: Option<H>,
    then: OpenedStep<H>,
)
    requires
        call_ensures(WindowRegistry::<H>::open_main_window, (&*old(registry), focused), step),
        call_ensures(WindowRegistry::<H>::on_opened, (registry, opened), then),
    ensures
        step == OpenStep::ActivateProgram <==> old(registry).main is Some && focused,
        opened is Some ==> final(registry).main == opened && then is Focus && then->Focus_0
            == opened->0,
        opened is None ==> final(registry).main == old(registry).main && then is Report,
{
}

/// The main window opens at its size, may not become smaller than its lowest
/// one, and carries the name of the program.
pub proof fn the_main_window_has_its_size_and_title(geometry: WindowGeometry, title: &'static str)
    requires
        call_ensures(main_window_geometry, (), geometry),
        call_ensures(main_window_title, (), title),
    ensures
        geometry.width == 1100 && geometry.height == 750,
        geometry.min_width == 720 && geometry.min_height == 680,
        title@ == "OpenLogi"@,
{
}

/// A search that found other cameras replaces those that are shown, unless it is
/// one of two empty ones in a row; one that found the same does not. A search
/// that found something ends the row.
pub proof fn a_search_replaces_the_cameras<C: Key>(
    scan: &mut CameraScan<C>,
    found: Vec<C>,
    replaced: bool,
)
    requires
        call_ensures(CameraScan::<C>::on_scan, (scan, found), replaced),
    ensures
        replaced ==> final(scan).cameras == found && final(scan).misses == 0,
        !replaced ==> final(scan).cameras == old(scan).cameras,
        found@.len() > 0 ==> final(scan).misses == 0,
        found@.len() > 0 && found@.len() != old(scan).cameras@.len() ==> replaced,
        found@.len() == 0 && old(scan).cameras@.len() > 0 && old(scan).misses < 2 ==> !replaced
            && final(scan).misses == old(scan).misses + 1,
        found@.len() == 0 && old(scan).cameras@.len() > 0 && old(scan).misses >= 2 ==> replaced,
{
    assert(views_of(found@).len() == found@.len());
    assert(views_of(old(scan).cameras@).len() == old(scan).cameras@.len());
}

/// A switch shows what was set, sets the one preference that it is named after,
/// and is off without preferences.
pub proof fn a_switch_sets_its_own_preference(
    toggle: Toggle,
    settings: &mut AppSettings,
    on: bool,
    done: (),
    shown: bool,
    without: bool,
)
    requires
        call_ensures(Toggle::set, (toggle, settings, on), done),
        call_ensures(Toggle::value, (toggle, Some(&*final(settings))), shown),
        call_ensures(Toggle::value, (toggle, None), without),
    ensures
        shown == on,
        !without,
        toggle == Toggle::LaunchAtLogin ==> *final(settings) == (AppSettings {
            launch_at_login: on,
            ..*old(settings)
        }),
        toggle == Toggle::ShowInMenuBar ==> *final(settings) == (AppSettings {
            show_in_menu_bar: on,
            ..*old(settings)
        }),
{
}

/// The slider has its value beside it, and a note in round brackets exactly at
/// the value out of the box.
pub proof fn the_default_sensitivity_is_marked(
    value: i32,
    word: &'static str,
    field: SensitivityField,
)
    requires
        call_ensures(sensitivity_field, (value, word), field),
    ensures
        field.text@ == decimal(value as int),
        field.caption is Some <==> value == 18,
        field.caption matches Some(caption) ==> caption@ == "("@ + word@ + ")"@,
{
}

/// The page is called `General`, and cannot be put back as a whole.
pub proof fn the_page_is_called_general(platform: Platform, page: GeneralPage)
    requires
        call_ensures(general_page, (platform,), page),
    ensures
        page.title@ == "General"@,
        !page.resettable,
        page.items@.len() == if platform == Platform::Linux {
            2int
        } else {
            3int
        },
        page.items@[0].control == Control::SensitivitySlider,
        page.items@[1].control == Control::Switch(Toggle::LaunchAtLogin),
        platform != Platform::Linux ==> page.items@[2].control == Control::Switch(
            Toggle::ShowInMenuBar,
        ),
{
    let views = page.items@.map_values(|item: SettingItem| item@);
    assert(views.len() == page.items@.len());
    assert(views[0] == page.items@[0]@);
    assert(views[1] == page.items@[1]@);
    if platform != Platform::Linux {
        assert(views[2] == page.items@[2]@);
    }
}

/// A program that has just started has fetched nothing, runs nothing, waits for
/// no delay and has not heard of the agent; so its first attempt is due at once
/// where the build has downloads, even without a device.
pub proof fn the_first_attempt_is_due_at_once<T>(
    enabled: bool,
    sync: AssetSync,
    view: AgentView,
    now: u64,
    delay: u64,
    text: Seq<char>,
)
    requires
        call_ensures(AssetSync::new, (enabled,), sync),
        call_ensures(AgentView::new, (), view),
    ensures
        !sync.synced_keys@.contains(text),
        sync.state is Idle && !sync.index_refreshed && !sync.dirty,
        sync.attempts == 0 && sync.last_at is None,
        sync.enabled == enabled,
        sync@.starts(true, now, delay, Seq::<AssetTarget<T>>::empty()) == enabled,
        view.link is Connecting,
        !view.camera_active,
{
    assert(sync@.synced == sync.synced_keys@);
    assert(view@.link == view.link@);
}

/// The end of a fetch says whether it succeeded, and names each model that was
/// asked for at its place.
pub proof fn an_outcome_names_what_was_asked_for<T>(
    fetch: Fetch<T>,
    ok: bool,
    outcome: SyncOutcome,
    i: int,
)
    requires
        call_ensures(Fetch::<T>::outcome, (&fetch, ok), outcome),
    ensures
        outcome.ok == ok,
        outcome.keys@.len() == fetch.targets@.len(),
        0 <= i < fetch.targets@.len() ==> outcome.keys@[i]@ == fetch.targets@[i].key@,
{
}

} // verus!
