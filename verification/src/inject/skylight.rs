//! The search for the window under the pointer, and the activation of its
//! application without raising the window.

use crate::inject::magnify::ActivationResult;
use vstd::prelude::*;

verus! {

/// The length of a focus record.
pub const EVENT_RECORD_LEN: usize = 0xF8;

/// Where a focus record says whether the focus comes or goes.
pub const FOCUS_MARKER_OFFSET: usize = 0x8A;

/// Where a focus record names its window.
pub const WINDOW_ID_OFFSET: usize = 0x3C;

/// The option that brings a process to the front without its windows.
pub const NO_WINDOWS: u32 = 0x400;

/// The marker of a record that brings the focus.
pub const FOCUS_GAINED: u8 = 0x01;

/// The marker of a record that takes the focus away.
pub const FOCUS_LOST: u8 = 0x02;

/// A byte of a whole number, the lowest first.
pub open spec fn byte_of(n: u32, i: int) -> u8 {
    if i == 0 {
        (n as int % 256) as u8
    } else if i == 1 {
        (n as int / 256 % 256) as u8
    } else if i == 2 {
        (n as int / 65536 % 256) as u8
    } else {
        (n as int / 16777216) as u8
    }
}

/// A byte of a focus record.
pub open spec fn record_byte(window_id: u32, marker: u8, i: int) -> u8 {
    if i == 0x04 {
        0xF8
    } else if i == 0x08 {
        0x0D
    } else if WINDOW_ID_OFFSET <= i < WINDOW_ID_OFFSET + 4 {
        byte_of(window_id, i - WINDOW_ID_OFFSET)
    } else if i == FOCUS_MARKER_OFFSET {
        marker
    } else {
        0
    }
}

/// A focus record.
pub open spec fn record_model(window_id: u32, marker: u8) -> Seq<u8> {
    Seq::new(EVENT_RECORD_LEN as nat, |i: int| record_byte(window_id, marker, i))
}

/// The focus record for a window, without a marker.
pub fn event_record(window_id: u32) -> (record: [u8; EVENT_RECORD_LEN])
    ensures
        record@ == record_model(window_id, 0),
{
    let mut record: [u8; EVENT_RECORD_LEN] = [0; EVENT_RECORD_LEN];
    record[0x04] = 0xF8;
    record[0x08] = 0x0D;
    record[WINDOW_ID_OFFSET] = (window_id % 256) as u8;
    record[WINDOW_ID_OFFSET + 1] = (window_id / 256 % 256) as u8;
    record[WINDOW_ID_OFFSET + 2] = (window_id / 65536 % 256) as u8;
    record[WINDOW_ID_OFFSET + 3] = (window_id / 16777216) as u8;
    assert(record@ =~= record_model(window_id, 0));
    record
}

/// The focus record for a window, with a marker.
pub fn focus_record(window_id: u32, marker: u8) -> (record: [u8; EVENT_RECORD_LEN])
    ensures
        record@ == record_model(window_id, marker),
{
    let mut record: [u8; EVENT_RECORD_LEN] = event_record(window_id);
    record[FOCUS_MARKER_OFFSET] = marker;
    assert(record@ =~= record_model(window_id, marker));
    record
}

/// The window and the marker can be read off a record.
pub proof fn record_reads_back(window_id: u32, marker: u8)
    ensures
        ({
            let record = record_model(window_id, marker);
            let at = WINDOW_ID_OFFSET as int;
            &&& record.len() == EVENT_RECORD_LEN
            &&& record[at] + 256 * record[at + 1] + 65536 * record[at + 2] + 16777216 * record[at
                + 3] == window_id
            &&& record[FOCUS_MARKER_OFFSET as int] == marker
        }),
{
}

/// What a search for a window came back with.
#[derive(Debug, Clone, Copy, PartialEq, Eq, Structural)]
pub struct Hit {
    /// Zero where the search succeeded.
    pub status: i32,
    /// The window; zero for none.
    pub window_id: u32,
    /// The connection that owns the window; zero for none.
    pub owner: i32,
}

/// What a search for the window under the pointer needs next.
#[derive(Debug, Clone, Copy, PartialEq, Eq, Structural)]
pub enum SearchStep {
    /// Search below this window.
    SearchBelow { window_id: u32 },
    /// Ask for the process of a connection.
    AskProcess { owner: i32 },
    /// There is no window to speak of.
    NotFound,
}

/// The search for the window under the pointer.
#[derive(Debug, Clone, Copy, PartialEq, Eq, Structural)]
pub struct PointerSearch {
    /// The connection of this program.
    pub connection: i32,
    /// The search has been taken on below a window of this program.
    pub below: bool,
}

/// A window of another program, under the pointer.
#[derive(Debug, Clone, Copy, PartialEq, Eq)]
pub struct HoveredWindow<P> {
    pub pid: i32,
    pub window_id: u32,
    pub connection_id: i32,
    /// The pointer on the screen.
    pub screen_point: P,
    /// The pointer in the window.
    pub window_point: P,
}

/// A hit on a window of this program itself.
pub open spec fn own_window(connection: i32, hit: Hit) -> bool {
    hit.status == 0 && hit.owner == connection && hit.window_id != 0
}

/// A hit on a window that has an owner.
pub open spec fn usable(hit: Hit) -> bool {
    hit.status == 0 && hit.window_id != 0 && hit.owner != 0
}

impl PointerSearch {
    /// The hit is to be passed over for the window below it.
    pub open spec fn passes_over(self, hit: Hit) -> bool {
        !self.below && own_window(self.connection, hit)
    }

    /// What follows a hit.
    pub open spec fn step(self, hit: Hit) -> SearchStep {
        if self.passes_over(hit) {
            SearchStep::SearchBelow { window_id: hit.window_id }
        } else if usable(hit) {
            SearchStep::AskProcess { owner: hit.owner }
        } else {
            SearchStep::NotFound
        }
    }

    /// The search after a hit.
    pub open spec fn next(self, hit: Hit) -> PointerSearch {
        PointerSearch { below: self.below || self.passes_over(hit), ..self }
    }

    /// A search asks at most once to be taken on below a window, and never ends
    /// with a hit that is of no use.
    pub proof fn goes_below_once(self, first: Hit, second: Hit)
        ensures
            self.step(first) is SearchBelow ==> !(self.next(first).step(second) is SearchBelow),
            self.step(second) is AskProcess ==> usable(second),
    {
    }

    /// A search that starts with the topmost window. `connection` is that of
    /// this program, where the call for it is there; without every call that a
    /// search needs there is none.
    pub fn start(connection: Option<i32>, find_window: bool, connection_pid: bool) -> (search: Option<
        PointerSearch,
    >)
        ensures
            search == match connection {
                Some(c) => if find_window && connection_pid {
                    Some(PointerSearch { connection: c, below: false })
                } else {
                    None
                },
                None => None,
            },
    {
        match connection {
            Some(connection) => if find_window && connection_pid {
                Some(PointerSearch { connection, below: false })
            } else {
                None
            },
            None => None,
        }
    }

    /// Takes a hit in. The first one may be a helper window of this program, so
    /// the search then goes on below it, once.
    pub fn on_hit(&mut self, hit: Hit) -> (step: SearchStep)
        ensures
            *final(self) == old(self).next(hit),
            step == old(self).step(hit),
    {
        if !self.below && hit.status == 0 && hit.owner == self.connection && hit.window_id != 0 {
            self.below = true;
            return SearchStep::SearchBelow { window_id: hit.window_id };
        }
        if hit.status != 0 || hit.window_id == 0 || hit.owner == 0 {
            SearchStep::NotFound
        } else {
            SearchStep::AskProcess { owner: hit.owner }
        }
    }
}

/// The window of a hit, once the process of its owner is known. There is none
/// for a hit that is of no use, or where the process could not be told.
pub fn hovered_window<P>(
    hit: Hit,
    status: i32,
    pid: i32,
    screen_point: P,
    window_point: P,
) -> (window: Option<HoveredWindow<P>>)
    ensures
        window == if usable(hit) && status == 0 && pid > 0 {
            Some(
                HoveredWindow {
                    pid,
                    window_id: hit.window_id,
                    connection_id: hit.owner,
                    screen_point,
                    window_point,
                },
            )
        } else {
            None
        },
{
    if hit.status != 0 || hit.window_id == 0 || hit.owner == 0 || status != 0 || pid <= 0 {
        None
    } else {
        Some(
            HoveredWindow {
                pid,
                window_id: hit.window_id,
                connection_id: hit.owner,
                screen_point,
                window_point,
            },
        )
    }
}

/// Which calls of the window server are there.
#[derive(Debug, Clone, Copy, PartialEq, Eq, Structural)]
pub struct Symbols {
    pub get_front: bool,
    pub get_psn: bool,
    pub post_record: bool,
    /// The call that undoes an activation.
    pub set_front: bool,
}

impl Symbols {
    /// Every call is there.
    pub open spec fn complete(self) -> bool {
        self.get_front && self.get_psn && self.post_record && self.set_front
    }
}

/// The process that was in front, the one that was activated in the background,
/// and the window that it was activated for.
#[derive(Debug, Clone, Copy, PartialEq, Eq, Structural)]
pub struct ActivationLease {
    pub previous: u64,
    pub target: u64,
    pub window_id: u32,
}

/// How far an activation has come.
#[derive(Debug, Clone, Copy, PartialEq, Eq, Structural)]
pub enum ActivationState {
    Start,
    /// Waiting for the process in front.
    AwaitFront,
    /// Waiting for the process of the window.
    AwaitTarget { previous: u64 },
    /// Waiting for what came of the two records.
    AwaitRecords { previous: u64, target: u64 },
    Finished,
}

/// An activation of the application of one window.
#[derive(Debug, Clone, Copy, PartialEq, Eq, Structural)]
pub struct Activation {
    pub window_id: u32,
    pub state: ActivationState,
}

/// What came back from the window server.
#[derive(Debug, Clone, Copy, PartialEq, Eq, Structural)]
pub enum ActivationEvent {
    Symbols(Symbols),
    /// The process in front; a status other than zero is a failure.
    Front { status: i32, psn: u64 },
    /// The process of the window; a status other than zero is a failure.
    Target { status: i32, psn: u64 },
    /// Whether either record was taken.
    Records { defocused: bool, focused: bool },
}

/// What an activation needs next, or what came of it.
#[derive(Debug, Clone, Copy, PartialEq, Eq, Structural)]
pub enum ActivationStep {
    AskFront,
    AskTarget,
    /// Post a record with [`FOCUS_LOST`] to the process in front, then one with
    /// [`FOCUS_GAINED`] to the process of the window.
    PostRecords { previous: u64, target: u64 },
    /// Bring this process to the front again; nothing was activated.
    Undo { previous: u64 },
    AlreadyFrontmost,
    Activated(ActivationLease),
    Unavailable,
}

impl ActivationStep {
    /// What came of an activation that ends with this step; none for a step
    /// that needs an answer.
    pub open spec fn result_model(self) -> Option<ActivationResult<ActivationLease>> {
        match self {
            ActivationStep::AskFront => None,
            ActivationStep::AskTarget => None,
            ActivationStep::PostRecords { .. } => None,
            ActivationStep::Undo { .. } => Some(ActivationResult::Unavailable),
            ActivationStep::AlreadyFrontmost => Some(ActivationResult::AlreadyFrontmost),
            ActivationStep::Activated(lease) => Some(ActivationResult::Activated(lease)),
            ActivationStep::Unavailable => Some(ActivationResult::Unavailable),
        }
    }

    /// What came of an activation that ends with this step; none for a step
    /// that needs an answer.
    pub fn result(self) -> (result: Option<ActivationResult<ActivationLease>>)
        ensures
            result == self.result_model(),
    {
        match self {
            ActivationStep::AskFront => None,
            ActivationStep::AskTarget => None,
            ActivationStep::PostRecords { .. } => None,
            ActivationStep::Undo { .. } => Some(ActivationResult::Unavailable),
            ActivationStep::AlreadyFrontmost => Some(ActivationResult::AlreadyFrontmost),
            ActivationStep::Activated(lease) => Some(ActivationResult::Activated(lease)),
            ActivationStep::Unavailable => Some(ActivationResult::Unavailable),
        }
    }
}

/// The state after an event. One that does not fit ends the activation.
pub open spec fn next_state(state: ActivationState, event: ActivationEvent) -> ActivationState {
    match (state, event) {
        (ActivationState::Start, ActivationEvent::Symbols(symbols)) => if symbols.complete() {
            ActivationState::AwaitFront
        } else {
            ActivationState::Finished
        },
        (ActivationState::AwaitFront, ActivationEvent::Front { status, psn }) => if status == 0 {
            ActivationState::AwaitTarget { previous: psn }
        } else {
            ActivationState::Finished
        },
        (
            ActivationState::AwaitTarget { previous },
            ActivationEvent::Target { status, psn },
        ) => if status == 0 && psn != previous {
            ActivationState::AwaitRecords { previous, target: psn }
        } else {
            ActivationState::Finished
        },
        _ => ActivationState::Finished,
    }
}

/// What follows an event.
pub open spec fn step_model(
    window_id: u32,
    state: ActivationState,
    event: ActivationEvent,
) -> ActivationStep {
    match (state, event) {
        (ActivationState::Start, ActivationEvent::Symbols(symbols)) => if symbols.complete() {
            ActivationStep::AskFront
        } else {
            ActivationStep::Unavailable
        },
        (ActivationState::AwaitFront, ActivationEvent::Front { status, psn }) => if status == 0 {
            ActivationStep::AskTarget
        } else {
            ActivationStep::Unavailable
        },
        (
            ActivationState::AwaitTarget { previous },
            ActivationEvent::Target { status, psn },
        ) => if status != 0 {
            ActivationStep::Unavailable
        } else if psn == previous {
            ActivationStep::AlreadyFrontmost
        } else {
            ActivationStep::PostRecords { previous, target: psn }
        },
        (ActivationState::AwaitRecords { previous, target }, event) => if event == (
        ActivationEvent::Records { defocused: true, focused: true }) {
            ActivationStep::Activated(ActivationLease { previous, target, window_id })
        } else {
            ActivationStep::Undo { previous }
        },
        _ => ActivationStep::Unavailable,
    }
}

impl Activation {
    /// An activation that has not begun.
    pub fn new(window_id: u32) -> (activation: Activation)
        ensures
            activation == (Activation { window_id, state: ActivationState::Start }),
    {
        Activation { window_id, state: ActivationState::Start }
    }

    /// Takes an event in. Nothing is asked of the window server unless every
    /// call is there, the one that undoes an activation among them; and an
    /// activation that fails halfway is undone.
    pub fn on_event(&mut self, event: ActivationEvent) -> (step: ActivationStep)
        ensures
            final(self).window_id == old(self).window_id,
            final(self).state == next_state(old(self).state, event),
            step == step_model(old(self).window_id, old(self).state, event),
    {
        let state: ActivationState = self.state;
        self.state = ActivationState::Finished;
        match state {
            ActivationState::Start => match event {
                ActivationEvent::Symbols(symbols) => if symbols.get_front && symbols.get_psn
                    && symbols.post_record && symbols.set_front {
                    self.state = ActivationState::AwaitFront;
                    ActivationStep::AskFront
                } else {
                    ActivationStep::Unavailable
                },
                _ => ActivationStep::Unavailable,
            },
            ActivationState::AwaitFront => match event {
                ActivationEvent::Front { status, psn } => if status == 0 {
                    self.state = ActivationState::AwaitTarget { previous: psn };
                    ActivationStep::AskTarget
                } else {
                    ActivationStep::Unavailable
                },
                _ => ActivationStep::Unavailable,
            },
            ActivationState::AwaitTarget { previous } => match event {
                ActivationEvent::Target { status, psn } => if status != 0 {
                    ActivationStep::Unavailable
                } else if psn == previous {
                    ActivationStep::AlreadyFrontmost
                } else {
                    self.state = ActivationState::AwaitRecords { previous, target: psn };
                    ActivationStep::PostRecords { previous, target: psn }
                },
                _ => ActivationStep::Unavailable,
            },
            ActivationState::AwaitRecords { previous, target } => match event {
                ActivationEvent::Records { defocused, focused } => if defocused && focused {
                    ActivationStep::Activated(
                        ActivationLease { previous, target, window_id: self.window_id },
                    )
                } else {
                    ActivationStep::Undo { previous }
                },
                _ => ActivationStep::Undo { previous },
            },
            ActivationState::Finished => ActivationStep::Unavailable,
        }
    }
}

/// The state of an activation after several events.
pub open spec fn state_after(events: Seq<ActivationEvent>) -> ActivationState
    decreases events.len(),
{
    if events.len() == 0 {
        ActivationState::Start
    } else {
        next_state(state_after(events.drop_last()), events.last())
    }
}

/// Records are posted only where the call that undoes them is known to be
/// there, and to two different processes.
pub proof fn records_need_a_way_back(events: Seq<ActivationEvent>)
    requires
        state_after(events) is AwaitFront || state_after(events) is AwaitTarget || state_after(
            events,
        ) is AwaitRecords,
    ensures
        events.len() > 0,
        events[0] matches ActivationEvent::Symbols(symbols) && symbols.complete(),
        state_after(events) matches ActivationState::AwaitRecords { previous, target }
            ==> previous != target,
    decreases events.len(),
{
    let front = events.drop_last();
    if state_after(front) is AwaitFront || state_after(front) is AwaitTarget {
        records_need_a_way_back(front);
        assert(front[0] == events[0]);
    } else {
        assert(state_after(front) is Start);
        lemma_start_is_before_all(front);
    }
}

/// Only an activation without events is at its start.
proof fn lemma_start_is_before_all(events: Seq<ActivationEvent>)
    requires
        state_after(events) is Start,
    ensures
        events.len() == 0,
{
}

/// An activation is finished exactly when something came of it, and it is
/// activated only where both records were taken.
pub proof fn a_finished_activation_has_a_result(
    window_id: u32,
    state: ActivationState,
    event: ActivationEvent,
)
    ensures
        ({
            let result = step_model(window_id, state, event).result_model();
            &&& next_state(state, event) is Finished <==> result is Some
            &&& result matches Some(ActivationResult::Activated(_)) ==> state is AwaitRecords
                && event == (ActivationEvent::Records { defocused: true, focused: true })
            &&& state is AwaitRecords && event != (ActivationEvent::Records {
                defocused: true,
                focused: true,
            }) ==> result == Some(ActivationResult::<ActivationLease>::Unavailable)
        }),
{
}

/// Once records were posted, the next event either gives a lease on exactly the
/// two processes, or brings the one that was in front back.
pub proof fn posted_records_are_leased_or_undone(
    window_id: u32,
    previous: u64,
    target: u64,
    event: ActivationEvent,
)
    ensures
        ({
            let step = step_model(
                window_id,
                ActivationState::AwaitRecords { previous, target },
                event,
            );
            ||| step == ActivationStep::Activated(ActivationLease { previous, target, window_id })
            ||| step == (ActivationStep::Undo { previous })
        }),
        next_state(ActivationState::AwaitRecords { previous, target }, event) is Finished,
{
}

/// A record for one process.
#[derive(Debug, Clone, Copy, PartialEq, Eq)]
pub struct RecordPost {
    pub psn: u64,
    pub record: [u8; EVENT_RECORD_LEN],
}

/// The two records of an activation: the one that takes the focus from the
/// process in front, and the one that gives it to the process of the window.
pub fn activation_records(window_id: u32, previous: u64, target: u64) -> (posts: (
    RecordPost,
    RecordPost,
))
    ensures
        posts.0.psn == previous,
        posts.0.record@ == record_model(window_id, FOCUS_LOST),
        posts.1.psn == target,
        posts.1.record@ == record_model(window_id, FOCUS_GAINED),
{
    (
        RecordPost { psn: previous, record: focus_record(window_id, FOCUS_LOST) },
        RecordPost { psn: target, record: focus_record(window_id, FOCUS_GAINED) },
    )
}

/// A process to bring to the front, and the options to do so with.
#[derive(Debug, Clone, Copy, PartialEq, Eq, Structural)]
pub struct FrontRequest {
    pub psn: u64,
    pub window: u32,
    pub options: u32,
}

/// Brings a process to the front without its windows.
pub fn front_request(psn: u64) -> (request: FrontRequest)
    ensures
        request == (FrontRequest { psn, window: 0, options: NO_WINDOWS }),
{
    FrontRequest { psn, window: 0, options: NO_WINDOWS }
}

/// How an activation is undone: first the record, then the process in front.
#[derive(Debug, Clone, Copy, PartialEq, Eq)]
pub struct RestorePlan {
    pub record: Option<RecordPost>,
    pub front: Option<FrontRequest>,
}

impl ActivationLease {
    /// Takes the focus from the activated process and brings the one that was
    /// in front back, as far as the calls for it are there.
    pub fn restore(&self, post_record: bool, set_front: bool) -> (plan: RestorePlan)
        ensures
            plan.record is Some == post_record,
            plan.record matches Some(post) ==> post.psn == self.target && post.record@
                == record_model(self.window_id, FOCUS_LOST),
            plan.front == if set_front {
                Some(FrontRequest { psn: self.previous, window: 0, options: NO_WINDOWS })
            } else {
                None
            },
    {
        let record: Option<RecordPost> = if post_record {
            Some(
                RecordPost {
                    psn: self.target,
                    record: focus_record(self.window_id, FOCUS_LOST),
                },
            )
        } else {
            None
        };
        let front: Option<FrontRequest> = if set_front {
            Some(front_request(self.previous))
        } else {
            None
        };
        RestorePlan { record, front }
    }
}

} // verus!
