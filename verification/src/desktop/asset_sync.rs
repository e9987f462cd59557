//! The download of device images in the background: when to start it, what to
//! fetch, and what to do with a manual command that arrives meanwhile.

use crate::config::settings::AssetSourcePreference;
use crate::desktop::agent::InventoryHealth;
use crate::text_set::TextSet;
#[allow(unused_imports)]
use crate::text_set::texts_of;
use vstd::prelude::*;

verus! {

/// A manual command for the images.
#[derive(Debug, Clone, Copy, PartialEq, Eq, Structural)]
pub enum AssetCommand {
    /// Fetch the images of all devices again.
    Refresh,
    /// Wipe the stored images, then fetch those of all devices again.
    ClearCache,
}

/// Whether a fetch is running. A command that arrives meanwhile waits inside
/// the running state, so none can wait for nothing.
#[derive(Debug, Clone, Copy, PartialEq, Eq, Structural)]
pub enum SyncState {
    Idle,
    Running { deferred: Option<AssetCommand> },
}

/// What the background download remembers.
#[derive(Debug)]
pub struct AssetSync {
    /// This build downloads images on its own.
    pub enabled: bool,
    /// Whether a fetch is running.
    pub state: SyncState,
    /// Automatic attempts since the last success.
    pub attempts: u32,
    /// When the last automatic attempt started, in milliseconds.
    pub last_at: Option<u64>,
    /// The index of all images has been fetched.
    pub index_refreshed: bool,
    /// The models whose images have been fetched.
    pub synced_keys: TextSet,
    /// New images are there that no list of devices has picked up yet.
    pub dirty: bool,
}

/// An [`AssetSync`] as a mathematical value.
#[verifier::ext_equal]
pub ghost struct SyncModel {
    pub enabled: bool,
    pub state: SyncState,
    pub attempts: u32,
    pub last_at: Option<u64>,
    pub index_refreshed: bool,
    pub synced: Set<Seq<char>>,
    pub dirty: bool,
}

impl View for AssetSync {
    type V = SyncModel;

    open spec fn view(&self) -> SyncModel {
        SyncModel {
            enabled: self.enabled,
            state: self.state,
            attempts: self.attempts,
            last_at: self.last_at,
            index_refreshed: self.index_refreshed,
            synced: self.synced_keys@,
            dirty: self.dirty,
        }
    }
}

/// A model whose images can be fetched.
#[derive(Debug)]
pub struct AssetTarget<T> {
    /// What tells the model from others.
    pub key: String,
    /// What the fetch needs to know of it.
    pub item: T,
}

/// A fetch that is to run in the background.
#[derive(Debug)]
pub struct Fetch<T> {
    pub source: AssetSourcePreference,
    pub targets: Vec<AssetTarget<T>>,
}

impl<T> Fetch<T> {
    /// The keys of the targets, in their order.
    pub fn keys(&self) -> (keys: Vec<String>)
        ensures
            are_keys_of(keys@, self.targets@),
    {
        let mut keys: Vec<String> = Vec::new();
        let mut i: usize = 0;
        while i < self.targets.len()
            invariant
                i <= self.targets@.len(),
                keys@.len() == i,
                forall|j: int|
                    0 <= j < i ==> (#[trigger] keys@[j])@ == self.targets@[j].key@,
            decreases self.targets@.len() - i,
        {
            keys.push(self.targets[i].key.clone());
            i += 1;
        }
        keys
    }

    /// The end of this fetch.
    pub fn outcome(&self, ok: bool) -> (outcome: SyncOutcome)
        ensures
            outcome.ok == ok,
            are_keys_of(outcome.keys@, self.targets@),
    {
        SyncOutcome { ok, keys: self.keys() }
    }
}

/// `keys` are the keys of the targets, in their order.
pub open spec fn are_keys_of<T>(keys: Seq<String>, targets: Seq<AssetTarget<T>>) -> bool {
    &&& keys.len() == targets.len()
    &&& forall|i: int| 0 <= i < keys.len() ==> (#[trigger] keys[i])@ == targets[i].key@
}

/// The end of a fetch.
#[derive(Debug)]
pub struct SyncOutcome {
    /// Everything was fetched.
    pub ok: bool,
    /// The models that were asked for.
    pub keys: Vec<String>,
}

/// What has to follow the end of a fetch.
#[derive(Debug, Clone, Copy, PartialEq, Eq, Structural)]
pub struct AfterOutcome {
    /// Look the stored images through again.
    pub rebuild_resolver: bool,
    /// Issue this command again, now that nothing is being written.
    pub reissue: Option<AssetCommand>,
}

/// What has to follow a manual command.
#[derive(Debug, Clone, Copy, PartialEq, Eq, Structural)]
pub enum AfterCommand {
    /// Nothing: a fetch is running, and the command waits for its end.
    Wait,
    /// Wipe the stored images and look them through again if asked to, do the
    /// merge, then fetch the images of all devices.
    Start { clear_cache: bool, merge: MergePlan },
}

/// What has to be done to the list of devices.
#[derive(Debug, Clone, Copy, PartialEq, Eq, Structural)]
pub struct MergePlan {
    /// Merge the last complete lists of devices into it.
    pub merge: bool,
    /// Do so even if the devices are the same as before.
    pub force: bool,
    /// Keep the reported devices as they are.
    pub store: bool,
}

/// The last complete lists of devices.
#[derive(Debug)]
pub struct Latest<D, S> {
    pub devices: Vec<D>,
    pub standalone: Vec<S>,
}

/// The command that waits after another one arrived: a wipe is never given up
/// for a mere refresh, since it fetches as well.
pub open spec fn deferred_after(
    waiting: Option<AssetCommand>,
    command: AssetCommand,
) -> AssetCommand {
    if waiting == Some(AssetCommand::ClearCache) {
        AssetCommand::ClearCache
    } else {
        command
    }
}

/// What a manual command means for the list of devices: after a wipe the last
/// complete lists are merged again, though they have not changed, so that the
/// images that are gone vanish at once.
pub open spec fn merge_after_command(command: AssetCommand) -> MergePlan {
    let wiped = command == AssetCommand::ClearCache;
    MergePlan { merge: wiped, force: wiped, store: false }
}

/// Enough time has passed since the last attempt.
pub open spec fn backoff_passed(last_at: Option<u64>, now: u64, delay: u64) -> bool {
    match last_at {
        None => true,
        Some(at) => now - at >= delay || delay == 0,
    }
}

/// The targets whose images have not been fetched yet.
pub open spec fn pending_model<T>(
    targets: Seq<AssetTarget<T>>,
    synced: Set<Seq<char>>,
) -> Seq<AssetTarget<T>> {
    targets.filter(|t: AssetTarget<T>| !synced.contains(t.key@))
}

impl SyncModel {
    /// A fetch is running.
    pub open spec fn running(self) -> bool {
        self.state is Running
    }

    /// The command that waits for the end of a fetch.
    pub open spec fn deferred(self) -> Option<AssetCommand> {
        match self.state {
            SyncState::Running { deferred } => deferred,
            SyncState::Idle => None,
        }
    }

    /// An automatic fetch of `pending` may start.
    pub open spec fn starts<T>(
        self,
        auto_download: bool,
        now: u64,
        delay: u64,
        pending: Seq<AssetTarget<T>>,
    ) -> bool {
        &&& auto_download
        &&& self.enabled
        &&& !self.running()
        &&& backoff_passed(self.last_at, now, delay)
        &&& !self.index_refreshed || pending.len() > 0
    }

    /// The state once an automatic fetch has started.
    pub open spec fn started(self, now: u64) -> SyncModel {
        SyncModel {
            state: SyncState::Running { deferred: None },
            attempts: if self.attempts == u32::MAX {
                u32::MAX
            } else {
                (self.attempts + 1) as u32
            },
            last_at: Some(now),
            ..self
        }
    }

    /// The state once a manual command has arrived.
    pub open spec fn commanded(self, command: AssetCommand) -> SyncModel {
        match self.state {
            SyncState::Running { deferred } => SyncModel {
                state: SyncState::Running { deferred: Some(deferred_after(deferred, command)) },
                ..self
            },
            SyncState::Idle => SyncModel {
                state: SyncState::Running { deferred: None },
                attempts: 0,
                last_at: None,
                synced: if command == AssetCommand::ClearCache {
                    Set::empty()
                } else {
                    self.synced
                },
                index_refreshed: command != AssetCommand::ClearCache && self.index_refreshed,
                ..self
            },
        }
    }

    /// The state once a fetch has ended.
    pub open spec fn ended(self, ok: bool, keys: Set<Seq<char>>) -> SyncModel {
        if ok {
            SyncModel {
                state: SyncState::Idle,
                attempts: 0,
                last_at: None,
                index_refreshed: true,
                synced: self.synced.union(keys),
                dirty: true,
                ..self
            }
        } else {
            SyncModel { state: SyncState::Idle, ..self }
        }
    }

    /// The state once an agent's report has been seen.
    pub open spec fn reported(self, ready: bool) -> SyncModel {
        SyncModel { dirty: self.dirty && !ready, ..self }
    }
}

/// The targets whose images have not been fetched yet, in their order.
fn pending_targets<T>(targets: Vec<AssetTarget<T>>, synced: &TextSet) -> (pending: Vec<
    AssetTarget<T>,
>)
    ensures
        pending@ == pending_model(targets@, synced@),
{
    let ghost all = targets@;
    let ghost wanted = |t: AssetTarget<T>| !synced@.contains(t.key@);
    let mut pending: Vec<AssetTarget<T>> = Vec::new();
    assert(all.take(0).filter(wanted) =~= Seq::<AssetTarget<T>>::empty()) by {
        reveal(Seq::filter);
    }
    for target in iter: targets
        invariant
            iter.seq() == all,
            wanted == |t: AssetTarget<T>| !synced@.contains(t.key@),
            pending@ == all.take(iter.index() as int).filter(wanted),
    {
        let ghost i = iter.index();
        proof {
            assert(all.take(i + 1).drop_last() =~= all.take(i as int));
            assert(all.take(i + 1).last() == target);
            reveal(Seq::filter);
        }
        if !synced.contains(&target.key) {
            pending.push(target);
        }
    }
    assert(all.take(all.len() as int) =~= all);
    pending
}

impl AssetSync {
    /// The memory of a program that has just started.
    pub fn new(enabled: bool) -> (sync: AssetSync)
        ensures
            sync@ == (SyncModel {
                enabled,
                state: SyncState::Idle,
                attempts: 0,
                last_at: None,
                index_refreshed: false,
                synced: Set::empty(),
                dirty: false,
            }),
    {
        AssetSync {
            enabled,
            state: SyncState::Idle,
            attempts: 0,
            last_at: None,
            index_refreshed: false,
            synced_keys: TextSet::new(),
            dirty: false,
        }
    }

    /// Whether a fetch is running.
    pub fn is_running(&self) -> (running: bool)
        ensures
            running == self@.running(),
    {
        matches!(self.state, SyncState::Running { .. })
    }

    /// Takes an agent's report in. Only an agent that has listed all devices
    /// counts: one that is still looking reports an empty list, which must
    /// neither replace the last complete one nor use up the mark that new
    /// images are there.
    pub fn on_report<D, S>(
        &mut self,
        latest: &mut Latest<D, S>,
        inventory: InventoryHealth,
        devices: Vec<D>,
        standalone: Vec<S>,
    ) -> (plan: MergePlan)
        ensures
            ({
                let ready = inventory == InventoryHealth::Ready;
                &&& final(self)@ == old(self)@.reported(ready)
                &&& plan == (MergePlan {
                    merge: ready,
                    force: ready && old(self)@.dirty,
                    store: ready,
                })
                &&& ready ==> final(latest).devices == devices && final(latest).standalone
                    == standalone
                &&& !ready ==> *final(latest) == *old(latest)
            }),
    {
        let ready: bool = inventory == InventoryHealth::Ready;
        let force: bool = ready && self.dirty;
        if ready {
            latest.devices = devices;
            latest.standalone = standalone;
            self.dirty = false;
        }
        MergePlan { merge: ready, force, store: ready }
    }

    /// Starts an automatic fetch where one is due: downloads are wanted, none
    /// is running, the delay after the last attempt is over, and something is
    /// missing.
    pub fn arm<T>(
        &mut self,
        auto_download: bool,
        source: AssetSourcePreference,
        now: u64,
        retry_delay: u64,
        models: Vec<AssetTarget<T>>,
        cameras: Vec<AssetTarget<T>>,
    ) -> (fetch: Option<Fetch<T>>)
        ensures
            ({
                let pending = pending_model(models@ + cameras@, old(self)@.synced);
                if old(self)@.starts(auto_download, now, retry_delay, pending) {
                    &&& final(self)@ == old(self)@.started(now)
                    &&& fetch matches Some(f)
                    &&& f.source == source
                    &&& f.targets@ == pending
                } else {
                    &&& final(self)@ == old(self)@
                    &&& fetch is None
                }
            }),
    {
        let ghost before = self@;
        let mut targets: Vec<AssetTarget<T>> = models;
        let mut more: Vec<AssetTarget<T>> = cameras;
        targets.append(&mut more);
        let pending: Vec<AssetTarget<T>> = pending_targets(targets, &self.synced_keys);
        let rested: bool = match self.last_at {
            None => true,
            Some(at) => now.saturating_sub(at) >= retry_delay,
        };
        if auto_download && self.enabled && !self.is_running() && rested && (!self.index_refreshed
            || pending.len() > 0) {
            self.state = SyncState::Running { deferred: None };
            self.attempts = self.attempts.saturating_add(1);
            self.last_at = Some(now);
            assert(self@ =~= before.started(now));
            Some(Fetch { source, targets: pending })
        } else {
            None
        }
    }

    /// Takes a manual command in. It waits for the end of a running fetch;
    /// otherwise it starts one, whatever the preferences say.
    pub fn on_command(&mut self, command: AssetCommand) -> (after: AfterCommand)
        ensures
            final(self)@ == old(self)@.commanded(command),
            after == if old(self)@.running() {
                AfterCommand::Wait
            } else {
                AfterCommand::Start {
                    clear_cache: command == AssetCommand::ClearCache,
                    merge: merge_after_command(command),
                }
            },
    {
        let ghost before = self@;
        match self.state {
            SyncState::Running { deferred } => {
                let waits_for_wipe: bool = matches!(deferred, Some(AssetCommand::ClearCache));
                if command == AssetCommand::ClearCache || !waits_for_wipe {
                    self.state = SyncState::Running { deferred: Some(command) };
                }
                assert(self@ =~= before.commanded(command));
                AfterCommand::Wait
            },
            SyncState::Idle => {
                let clear_cache: bool = command == AssetCommand::ClearCache;
                if clear_cache {
                    self.synced_keys = TextSet::new();
                    self.index_refreshed = false;
                }
                self.state = SyncState::Running { deferred: None };
                self.attempts = 0;
                self.last_at = None;
                assert(self@ =~= before.commanded(command));
                AfterCommand::Start {
                    clear_cache,
                    merge: MergePlan { merge: clear_cache, force: clear_cache, store: false },
                }
            },
        }
    }

    /// Takes the end of a fetch in.
    pub fn on_outcome(&mut self, outcome: SyncOutcome) -> (after: AfterOutcome)
        ensures
            final(self)@ == old(self)@.ended(outcome.ok, texts_of(outcome.keys@)),
            after == (AfterOutcome {
                rebuild_resolver: outcome.ok,
                reissue: old(self)@.deferred(),
            }),
    {
        let ghost before = self@;
        let reissue: Option<AssetCommand> = match self.state {
            SyncState::Running { deferred } => deferred,
            SyncState::Idle => None,
        };
        self.state = SyncState::Idle;
        if outcome.ok {
            self.attempts = 0;
            self.last_at = None;
            self.index_refreshed = true;
            self.synced_keys.extend(outcome.keys);
            self.dirty = true;
        }
        assert(self@ =~= before.ended(outcome.ok, texts_of(outcome.keys@)));
        AfterOutcome { rebuild_resolver: outcome.ok, reissue }
    }
}

/// The fetch of a manual command: every device and every camera.
pub fn fetch_all<T>(
    source: AssetSourcePreference,
    models: Vec<AssetTarget<T>>,
    cameras: Vec<AssetTarget<T>>,
) -> (fetch: Fetch<T>)
    ensures
        fetch.source == source,
        fetch.targets@ == models@ + cameras@,
{
    let mut targets: Vec<AssetTarget<T>> = models;
    let mut more: Vec<AssetTarget<T>> = cameras;
    targets.append(&mut more);
    Fetch { source, targets }
}

/// A running fetch is never joined by a second one: nothing starts, and a
/// command waits.
pub proof fn one_fetch_at_a_time<T>(
    s: SyncModel,
    auto_download: bool,
    now: u64,
    delay: u64,
    pending: Seq<AssetTarget<T>>,
    command: AssetCommand,
)
    requires
        s.running(),
    ensures
        !s.starts(auto_download, now, delay, pending),
        s.commanded(command).running(),
        s.commanded(command).deferred() is Some,
        s.commanded(command).synced == s.synced,
        s.commanded(command).index_refreshed == s.index_refreshed,
{
}

/// What happens to the background download.
pub ghost enum SyncEvent<T> {
    /// An agent reported.
    Report { ready: bool },
    /// An automatic fetch may be due.
    Arm { auto_download: bool, now: u64, delay: u64, targets: Seq<AssetTarget<T>> },
    /// A manual command arrived.
    Command(AssetCommand),
    /// A fetch ended. This is looked for only while one is running.
    Outcome { ok: bool, keys: Set<Seq<char>> },
}

/// The state after an event.
pub open spec fn after_event<T>(s: SyncModel, event: SyncEvent<T>) -> SyncModel {
    match event {
        SyncEvent::Report { ready } => s.reported(ready),
        SyncEvent::Arm { auto_download, now, delay, targets } => if s.starts(
            auto_download,
            now,
            delay,
            pending_model(targets, s.synced),
        ) {
            s.started(now)
        } else {
            s
        },
        SyncEvent::Command(command) => s.commanded(command),
        SyncEvent::Outcome { ok, keys } => if s.running() {
            s.ended(ok, keys)
        } else {
            s
        },
    }
}

/// How many more fetches run after an event than before.
pub open spec fn fetches_added<T>(s: SyncModel, event: SyncEvent<T>) -> int {
    match event {
        SyncEvent::Report { .. } => 0,
        SyncEvent::Arm { auto_download, now, delay, targets } => if s.starts(
            auto_download,
            now,
            delay,
            pending_model(targets, s.synced),
        ) {
            1
        } else {
            0
        },
        SyncEvent::Command(_) => if s.running() {
            0
        } else {
            1
        },
        SyncEvent::Outcome { .. } => if s.running() {
            -1
        } else {
            0
        },
    }
}

/// The state after several events.
pub open spec fn after_events<T>(s: SyncModel, events: Seq<SyncEvent<T>>) -> SyncModel
    decreases events.len(),
{
    if events.len() == 0 {
        s
    } else {
        after_event(after_events(s, events.drop_last()), events.last())
    }
}

/// How many fetches run after several events.
pub open spec fn fetches_running<T>(s: SyncModel, events: Seq<SyncEvent<T>>) -> int
    decreases events.len(),
{
    if events.len() == 0 {
        0
    } else {
        fetches_running(s, events.drop_last()) + fetches_added(
            after_events(s, events.drop_last()),
            events.last(),
        )
    }
}

/// Whatever happens, at most one fetch runs, and the state tells whether one
/// does.
pub proof fn at_most_one_fetch_runs<T>(s: SyncModel, events: Seq<SyncEvent<T>>)
    requires
        !s.running(),
    ensures
        fetches_running(s, events) == if after_events(s, events).running() {
            1int
        } else {
            0int
        },
    decreases events.len(),
{
    if events.len() > 0 {
        at_most_one_fetch_runs(s, events.drop_last());
    }
}

/// The state once several manual commands have arrived.
pub open spec fn commanded_all(s: SyncModel, commands: Seq<AssetCommand>) -> SyncModel
    decreases commands.len(),
{
    if commands.len() == 0 {
        s
    } else {
        commanded_all(s, commands.drop_last()).commanded(commands.last())
    }
}

/// Of the commands that arrive while a fetch is running, a wipe is issued again
/// at its end if there is any, and otherwise the last one.
pub proof fn a_wipe_is_never_dropped(s: SyncModel, commands: Seq<AssetCommand>)
    requires
        s.running(),
        commands.len() > 0,
    ensures
        commanded_all(s, commands).running(),
        commanded_all(s, commands).deferred() == Some(
            if s.deferred() == Some(AssetCommand::ClearCache) || commands.contains(
                AssetCommand::ClearCache,
            ) {
                AssetCommand::ClearCache
            } else {
                commands.last()
            },
        ),
    decreases commands.len(),
{
    let front = commands.drop_last();
    assert(commands =~= front.push(commands.last()));
    if front.len() > 0 {
        a_wipe_is_never_dropped(s, front);
        if front.contains(AssetCommand::ClearCache) {
            let i = choose|i: int| 0 <= i < front.len() && front[i] == AssetCommand::ClearCache;
            assert(commands[i] == AssetCommand::ClearCache);
        }
    } else {
        assert(commanded_all(s, front) == s);
    }
    if commands.last() == AssetCommand::ClearCache {
        assert(commands[commands.len() - 1] == AssetCommand::ClearCache);
    }
    if commands.contains(AssetCommand::ClearCache) && commands.last() != AssetCommand::ClearCache {
        let i = choose|i: int| 0 <= i < commands.len() && commands[i] == AssetCommand::ClearCache;
        assert(front[i] == AssetCommand::ClearCache);
    }
}

/// An automatic fetch asks only for models of the list that have not been
/// fetched.
pub proof fn automatic_fetch_asks_for_missing_models<T>(
    targets: Seq<AssetTarget<T>>,
    synced: Set<Seq<char>>,
    i: int,
)
    requires
        0 <= i < pending_model(targets, synced).len(),
    ensures
        targets.contains(pending_model(targets, synced)[i]),
        !synced.contains(pending_model(targets, synced)[i].key@),
{
    let wanted = |t: AssetTarget<T>| !synced.contains(t.key@);
    let found = targets.filter(wanted)[i];
    targets.lemma_filter_pred(wanted, i);
    assert(targets.filter(wanted).contains(found));
    targets.lemma_filter_contains_rev(wanted, found);
}

/// Where downloads are not wanted, nothing is fetched on its own; a manual
/// command fetches all the same.
pub proof fn downloads_are_wanted_or_commanded<T>(
    s: SyncModel,
    now: u64,
    delay: u64,
    pending: Seq<AssetTarget<T>>,
    command: AssetCommand,
)
    ensures
        !s.starts(false, now, delay, pending),
        !s.enabled ==> !s.starts(true, now, delay, pending),
        s.commanded(command).running(),
        s.commanded(command).enabled == s.enabled,
{
}

/// Once everything has been fetched, nothing more is.
pub proof fn complete_sync_rests<T>(
    s: SyncModel,
    targets: Seq<AssetTarget<T>>,
    auto_download: bool,
    now: u64,
    delay: u64,
)
    requires
        s.index_refreshed,
        forall|i: int| 0 <= i < targets.len() ==> s.synced.contains((#[trigger] targets[i]).key@),
    ensures
        !s.starts(auto_download, now, delay, pending_model(targets, s.synced)),
{
    if pending_model(targets, s.synced).len() > 0 {
        automatic_fetch_asks_for_missing_models(targets, s.synced, 0);
        let first = pending_model(targets, s.synced)[0];
        let i = choose|i: int| 0 <= i < targets.len() && targets[i] == first;
        assert(s.synced.contains(targets[i].key@));
    }
}

/// Once a fetch of everything that was missing has succeeded, nothing of the
/// same list is missing any more.
pub proof fn fetched_models_are_not_missing<T>(
    s: SyncModel,
    targets: Seq<AssetTarget<T>>,
    keys: Seq<String>,
)
    requires
        are_keys_of(keys, pending_model(targets, s.synced)),
    ensures
        pending_model(targets, s.ended(true, texts_of(keys)).synced).len() == 0,
{
    let after = s.ended(true, texts_of(keys)).synced;
    if pending_model(targets, after).len() > 0 {
        let found = pending_model(targets, after)[0];
        automatic_fetch_asks_for_missing_models(targets, after, 0);
        let wanted = |t: AssetTarget<T>| !s.synced.contains(t.key@);
        let i = choose|i: int| 0 <= i < targets.len() && targets[i] == found;
        assert(wanted(targets[i]));
        targets.lemma_filter_contains(wanted, i);
        let pending = pending_model(targets, s.synced);
        let j = choose|j: int| 0 <= j < pending.len() && pending[j] == found;
        assert(keys[j]@ == found.key@);
        assert(texts_of(keys).contains(found.key@));
    }
}

/// A failed fetch changes nothing but that none is running; a later attempt
/// waits for the delay of its number. A successful one takes the delay away.
pub proof fn failure_keeps_the_delay(s: SyncModel, keys: Set<Seq<char>>, now: u64, delay: u64)
    ensures
        s.ended(false, keys) == (SyncModel { state: SyncState::Idle, ..s }),
        backoff_passed(s.ended(true, keys).last_at, now, delay),
        s.ended(true, keys).attempts == 0,
        s.started(now).ended(false, keys).attempts >= s.attempts,
        s.started(now).ended(false, keys).last_at == Some(now),
{
}

/// New images stay marked until an agent that has listed all devices reports.
pub proof fn new_images_wait_for_a_ready_agent(s: SyncModel, keys: Set<Seq<char>>)
    ensures
        s.ended(true, keys).reported(false).dirty,
        !s.ended(true, keys).reported(true).dirty,
        s.reported(false) == s,
{
}

} // verus!
