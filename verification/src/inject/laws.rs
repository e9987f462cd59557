//! What the events of a gesture, the search for a window and an activation come
//! to.

#![allow(unused_imports)]

use crate::inject::magnify::{
    actions_model, event_fields, finish_route, first_delivery, next_stream, route_for_pointer,
    second_delivery, ActivationResult, Amount, Delivery, EventFields, GesturePhase, MagnifyStream, Route,
    RoutePlan, StreamAction, StreamEvent, StreamModel, Wait, BACKGROUND_ACTIVATION_SETTLE_MS,
    BACKGROUND_RESTORE_SETTLE_MS, END_AFTER_IDLE_MS, FIELD_HID_TYPE, FIELD_MAGNIFICATION,
    FIELD_PHASE, GESTURE_EVENT, HID_ZOOM,
};
use crate::inject::skylight::{
    activation_records, front_request, hovered_window, next_state, own_window, record_model, state_after, step_model, usable, ActivationEvent,
    ActivationLease, ActivationState, ActivationStep, FrontRequest, Hit, HoveredWindow, PointerSearch,
    RecordPost, RestorePlan, SearchStep, Symbols, EVENT_RECORD_LEN, FOCUS_GAINED, FOCUS_LOST, FOCUS_MARKER_OFFSET,
    NO_WINDOWS, WINDOW_ID_OFFSET,
};
use vstd::prelude::*;

verus! {

/// A turn out of rest has a route looked for and waits for it; more turns wait
/// behind it.
pub proof fn turns_wait_for_a_route<R, A>(amount: A, waiting: Seq<A>, closing: bool)
    ensures
        next_stream(StreamModel::<R, A>::Idle, StreamEvent::Turned(amount)) == (
        StreamModel::<R, A>::Finding { waiting: seq![amount], closing: false }),
        actions_model(StreamModel::<R, A>::Idle, StreamEvent::Turned(amount)) == seq![
            StreamAction::<R, A>::FindRoute,
        ],
        next_stream(
            StreamModel::<R, A>::Finding { waiting, closing },
            StreamEvent::Turned(amount),
        ) == (StreamModel::<R, A>::Finding { waiting: waiting.push(amount), closing }),
        actions_model(
            StreamModel::<R, A>::Finding { waiting, closing },
            StreamEvent::Turned(amount),
        ).len() == 0,
{
}

/// Once a route is found, a gesture begins over it and changes by every turn
/// that waited, each with its own amount and in order.
pub proof fn a_found_route_lets_the_gesture_begin<R, A>(
    waiting: Seq<A>,
    closing: bool,
    route: R,
    i: int,
)
    ensures
        ({
            let stream = StreamModel::<R, A>::Finding { waiting, closing };
            let actions = actions_model(stream, StreamEvent::Routed(route));
            let n = waiting.len() as int;
            &&& next_stream(stream, StreamEvent::Routed(route)) == if closing {
                StreamModel::<R, A>::Idle
            } else {
                StreamModel::<R, A>::Active { route }
            }
            &&& actions.len() == if closing {
                n + 4
            } else {
                n + 1
            }
            &&& actions[0] == (StreamAction::Post {
                phase: GesturePhase::Began,
                amount: Amount::<A>::Zero,
                route,
            })
            &&& 0 <= i < n ==> actions[i + 1] == (StreamAction::Post {
                phase: GesturePhase::Changed,
                amount: Amount::Turn(waiting[i]),
                route,
            })
            &&& closing ==> {
                &&& actions[n + 1] == (StreamAction::Post {
                    phase: GesturePhase::Ended,
                    amount: Amount::<A>::Zero,
                    route,
                })
                &&& actions[n + 2] == StreamAction::<R, A>::FinishRoute(route)
                &&& actions[n + 3] == StreamAction::<R, A>::Stop
            }
        }),
{
}

/// A turn during a gesture changes it by its own amount and over its own route,
/// and the gesture goes on.
pub proof fn a_turn_changes_the_gesture<R, A>(amount: A, route: R, other: R)
    ensures
        ({
            let stream = StreamModel::<R, A>::Active { route };
            &&& next_stream(stream, StreamEvent::Turned(amount)) == stream
            &&& actions_model(stream, StreamEvent::Turned(amount)) == seq![
                StreamAction::Post {
                    phase: GesturePhase::Changed,
                    amount: Amount::Turn(amount),
                    route,
                },
            ]
            &&& next_stream(stream, StreamEvent::Routed(other)) == stream
            &&& actions_model(stream, StreamEvent::Routed(other)).len() == 0
        }),
{
}

/// A pause or a close ends the gesture: its last event goes over its own route,
/// which is given up directly behind it. The next turn starts afresh.
pub proof fn a_pause_ends_the_gesture<R, A>(route: R, event: StreamEvent<R, A>)
    requires
        event is Paused || event is Closed,
    ensures
        ({
            let stream = StreamModel::<R, A>::Active { route };
            let actions = actions_model(stream, event);
            &&& next_stream(stream, event) is Idle
            &&& actions.len() == if event is Closed {
                3int
            } else {
                2int
            }
            &&& actions[0] == (StreamAction::Post {
                phase: GesturePhase::Ended,
                amount: Amount::<A>::Zero,
                route,
            })
            &&& actions[1] == StreamAction::<R, A>::FinishRoute(route)
            &&& event is Closed ==> actions[2] is Stop
        }),
{
}

/// A close stops the stream once no gesture is left to finish; while a route is
/// looked for it waits, and the turns before it are not lost. Without a gesture
/// a pause or a route means nothing.
pub proof fn a_close_stops_the_stream<R, A>(waiting: Seq<A>, closing: bool, route: R)
    ensures
        actions_model(StreamModel::<R, A>::Idle, StreamEvent::Closed) == seq![
            StreamAction::<R, A>::Stop,
        ],
        next_stream(StreamModel::<R, A>::Idle, StreamEvent::Closed) is Idle,
        next_stream(StreamModel::<R, A>::Finding { waiting, closing }, StreamEvent::Closed) == (
        StreamModel::<R, A>::Finding { waiting, closing: true }),
        actions_model(StreamModel::<R, A>::Finding { waiting, closing }, StreamEvent::Closed).len()
            == 0,
        next_stream(StreamModel::<R, A>::Finding { waiting, closing }, StreamEvent::Paused) == (
        StreamModel::<R, A>::Finding { waiting, closing }),
        actions_model(StreamModel::<R, A>::Finding { waiting, closing }, StreamEvent::Paused).len()
            == 0,
        next_stream(StreamModel::<R, A>::Idle, StreamEvent::Paused) is Idle,
        actions_model(StreamModel::<R, A>::Idle, StreamEvent::Paused).len() == 0,
        next_stream(StreamModel::<R, A>::Idle, StreamEvent::Routed(route)) is Idle,
        actions_model(StreamModel::<R, A>::Idle, StreamEvent::Routed(route)).len() == 0,
{
}

/// The stream stops exactly at a close: at once where no route is looked for,
/// and otherwise when that is found.
pub proof fn the_stream_stops_at_a_close_only<R, A>(
    stream: StreamModel<R, A>,
    event: StreamEvent<R, A>,
)
    ensures
        actions_model(stream, event).contains(StreamAction::Stop) <==> match stream {
            StreamModel::Finding { closing, .. } => closing && event is Routed,
            _ => event is Closed,
        },
{
    let actions = actions_model(stream, event);
    if match stream {
        StreamModel::Finding { closing, .. } => closing && event is Routed,
        _ => event is Closed,
    } {
        assert(actions[actions.len() - 1] is Stop);
    }
}

/// A stream stands for its state.
pub proof fn a_stream_stands_for_its_state<R, A>(stream: MagnifyStream<R, A>)
    ensures
        match stream {
            MagnifyStream::Idle => stream@ is Idle,
            MagnifyStream::Finding { waiting, closing } => stream@ == (StreamModel::<
                R,
                A,
            >::Finding { waiting: waiting@, closing }),
            MagnifyStream::Active { route } => stream@ == (StreamModel::<R, A>::Active { route }),
        },
{
}

/// An event that was made goes to the process of the window of a background
/// route, with the place of the pointer on the screen and in the window, and
/// through the common tap without one. One that was not made goes nowhere.
pub proof fn an_event_goes_to_its_window<P, L>(target: HoveredWindow<P>, lease: L)
    ensures
        first_delivery(true, Route::Background { target, lease }) == Some(
            Delivery::Process {
                pid: target.pid,
                screen_point: target.screen_point,
                window_point: target.window_point,
            },
        ),
        first_delivery(true, Route::<HoveredWindow<P>, L>::Focused) == Some(
            Delivery::<P>::CommonTap,
        ),
        first_delivery(false, Route::Background { target, lease }) is None,
        first_delivery(false, Route::<HoveredWindow<P>, L>::Focused) is None,
{
}

/// An event is tried again exactly where it could not be sent to a process, and
/// then through the common tap.
pub proof fn an_unsent_event_goes_through_the_tap<P>(
    pid: i32,
    screen_point: P,
    window_point: P,
    sent: bool,
)
    ensures
        second_delivery(Delivery::Process { pid, screen_point, window_point }, true) is None,
        second_delivery(Delivery::Process { pid, screen_point, window_point }, false) == Some(
            Delivery::<P>::CommonTap,
        ),
        second_delivery(Delivery::<P>::CommonTap, sent) is None,
{
}

/// The times and the fields of the events.
pub proof fn events_of_a_gesture()
    ensures
        END_AFTER_IDLE_MS == 80,
        BACKGROUND_ACTIVATION_SETTLE_MS == 50,
        BACKGROUND_RESTORE_SETTLE_MS == 12,
        GESTURE_EVENT == 29,
        HID_ZOOM == 8,
        FIELD_HID_TYPE == 110,
        FIELD_MAGNIFICATION == 113,
        FIELD_PHASE == 132,
{
}

/// A focus record is zero but for its length, its kind, the number of its window
/// and its marker; the number stands with the lowest byte first.
pub proof fn a_record_holds_nothing_else(window_id: u32, marker: u8, i: int)
    ensures
        ({
            let record = record_model(window_id, marker);
            &&& record.len() == 248
            &&& record[4] == 248
            &&& record[8] == 13
            &&& record[0x3C] == window_id as int % 256
            &&& record[0x3D] == window_id as int / 256 % 256
            &&& record[0x3E] == window_id as int / 65536 % 256
            &&& record[0x3F] == window_id as int / 16777216
            &&& record[0x8A] == marker
            &&& 0 <= i < 248 && i != 4 && i != 8 && !(0x3C <= i < 0x40) && i != 0x8A ==> record[i]
                == 0
        }),
{
}

/// The layout of a record, the two markers, and the option that keeps windows
/// where they are.
pub proof fn records_have_their_layout()
    ensures
        EVENT_RECORD_LEN == 0xF8,
        WINDOW_ID_OFFSET == 0x3C,
        FOCUS_MARKER_OFFSET == 0x8A,
        FOCUS_GAINED == 1,
        FOCUS_LOST == 2,
        NO_WINDOWS == 0x400,
{
}

/// A search goes on below the first window exactly where that belongs to this
/// program; otherwise, and the second time in any case, it asks for the process
/// of a window that has an owner, and finds nothing without one.
pub proof fn a_search_goes_on_below_an_own_window(connection: i32, below: bool, hit: Hit)
    ensures
        ({
            let search = PointerSearch { connection, below };
            let own = hit.status == 0 && hit.window_id != 0 && hit.owner == connection;
            let owned = hit.status == 0 && hit.window_id != 0 && hit.owner != 0;
            &&& own && !below ==> search.step(hit) == (SearchStep::SearchBelow {
                window_id: hit.window_id,
            }) && search.next(hit) == (PointerSearch { connection, below: true })
            &&& (!own || below) && owned ==> search.step(hit) == (SearchStep::AskProcess {
                owner: hit.owner,
            })
            &&& (!own || below) && !owned ==> search.step(hit) == SearchStep::NotFound
            &&& !own || below ==> search.next(hit) == search
            &&& usable(hit) <==> owned
            &&& own_window(connection, hit) <==> own
        }),
{
}

/// An activation asks for the process in front exactly where every call is
/// there, and then for that of the window where the answer is good. A missing
/// call or a bad answer ends it, and the process in front is remembered.
pub proof fn an_activation_needs_every_call_and_answer(
    window_id: u32,
    symbols: Symbols,
    status: i32,
    psn: u64,
)
    ensures
        ({
            let every = symbols.get_front && symbols.get_psn && symbols.post_record
                && symbols.set_front;
            let called = ActivationEvent::Symbols(symbols);
            let front = ActivationEvent::Front { status, psn };
            &&& symbols.complete() <==> every
            &&& every ==> step_model(window_id, ActivationState::Start, called)
                == ActivationStep::AskFront && next_state(ActivationState::Start, called)
                == ActivationState::AwaitFront
            &&& !every ==> step_model(window_id, ActivationState::Start, called)
                == ActivationStep::Unavailable && next_state(ActivationState::Start, called)
                == ActivationState::Finished
            &&& status == 0 ==> step_model(window_id, ActivationState::AwaitFront, front)
                == ActivationStep::AskTarget && next_state(ActivationState::AwaitFront, front) == (
            ActivationState::AwaitTarget { previous: psn })
            &&& status != 0 ==> step_model(window_id, ActivationState::AwaitFront, front)
                == ActivationStep::Unavailable && next_state(ActivationState::AwaitFront, front)
                == ActivationState::Finished
        }),
{
}

/// The application of a window is in front already exactly where its process is
/// the one in front; for every other process, whatever its number, the focus
/// records are posted to the two. A bad answer ends the activation.
pub proof fn only_the_same_process_is_in_front_already(window_id: u32, p: u64, t: u64, status: i32)
    ensures
        ({
            let awaiting = ActivationState::AwaitTarget { previous: p };
            let answer = ActivationEvent::Target { status, psn: t };
            let step = step_model(window_id, awaiting, answer);
            &&& step == ActivationStep::AlreadyFrontmost <==> status == 0 && t == p
            &&& step == (ActivationStep::PostRecords { previous: p, target: t }) <==> status == 0
                && t != p
            &&& step == ActivationStep::Unavailable <==> status != 0
            &&& status == 0 && t != p ==> next_state(awaiting, answer) == (
            ActivationState::AwaitRecords { previous: p, target: t })
            &&& status != 0 || t == p ==> next_state(awaiting, answer) == ActivationState::Finished
        }),
{
}

/// Which of two processes is in front does not matter for whether the other one
/// is activated.
pub proof fn activation_does_not_depend_on_the_order(window_id: u32, p: u64, t: u64)
    ensures
        step_model(
            window_id,
            ActivationState::AwaitTarget { previous: p },
            ActivationEvent::Target { status: 0, psn: t },
        ) is PostRecords <==> step_model(
            window_id,
            ActivationState::AwaitTarget { previous: t },
            ActivationEvent::Target { status: 0, psn: p },
        ) is PostRecords,
{
}

/// Where every call is there, every answer is good, the two processes differ and
/// both records are taken, the application is activated: the lease names the
/// process that was in front, the one of the window, and the window.
pub proof fn a_background_application_is_activated(
    window_id: u32,
    symbols: Symbols,
    p: u64,
    t: u64,
)
    requires
        symbols.get_front,
        symbols.get_psn,
        symbols.post_record,
        symbols.set_front,
        p != t,
    ensures
        ({
            let before = seq![
                ActivationEvent::Symbols(symbols),
                ActivationEvent::Front { status: 0, psn: p },
                ActivationEvent::Target { status: 0, psn: t },
            ];
            let both = ActivationEvent::Records { defocused: true, focused: true };
            let last = step_model(window_id, state_after(before), both);
            let lease = ActivationLease { previous: p, target: t, window_id };
            &&& state_after(before) == (ActivationState::AwaitRecords { previous: p, target: t })
            &&& last == ActivationStep::Activated(lease)
            &&& last.result_model() == Some(ActivationResult::Activated(lease))
            &&& next_state(state_after(before), both) == ActivationState::Finished
        }),
{
    let e1 = Seq::<ActivationEvent>::empty().push(ActivationEvent::Symbols(symbols));
    let e2 = e1.push(ActivationEvent::Front { status: 0, psn: p });
    let e3 = e2.push(ActivationEvent::Target { status: 0, psn: t });
    assert(e3 =~= seq![
        ActivationEvent::Symbols(symbols),
        ActivationEvent::Front { status: 0, psn: p },
        ActivationEvent::Target { status: 0, psn: t },
    ]);
    assert(e1.drop_last() =~= Seq::empty());
    assert(e2.drop_last() =~= e1);
    assert(e3.drop_last() =~= e2);
    assert(state_after(Seq::empty()) == ActivationState::Start);
    assert(state_after(e1) == ActivationState::AwaitFront);
    assert(state_after(e2) == (ActivationState::AwaitTarget { previous: p }));
}

/// Where either record is refused, the process that was in front is brought back
/// and nothing was activated.
pub proof fn a_refused_record_brings_the_front_back(
    window_id: u32,
    p: u64,
    t: u64,
    defocused: bool,
    focused: bool,
)
    ensures
        ({
            let posted = ActivationState::AwaitRecords { previous: p, target: t };
            let answer = ActivationEvent::Records { defocused, focused };
            let step = step_model(window_id, posted, answer);
            &&& defocused && focused <==> step == ActivationStep::Activated(
                ActivationLease { previous: p, target: t, window_id },
            )
            &&& !(defocused && focused) <==> step == (ActivationStep::Undo { previous: p })
            &&& next_state(posted, answer) == ActivationState::Finished
        }),
{
}

/// An activation that came to an end stays there.
pub proof fn a_finished_activation_stays_finished(window_id: u32, event: ActivationEvent)
    ensures
        next_state(ActivationState::Finished, event) == ActivationState::Finished,
        step_model(window_id, ActivationState::Finished, event) == ActivationStep::Unavailable,
{
}

/// Each end of an activation has its result, and a step that needs an answer has
/// none.
pub proof fn each_end_of_an_activation_has_its_result(
    step: ActivationStep,
    lease: ActivationLease,
)
    ensures
        step.result_model() is None <==> step is AskFront || step is AskTarget
            || step is PostRecords,
        step.result_model() == Some(ActivationResult::Activated(lease)) <==> step
            == ActivationStep::Activated(lease),
        step.result_model() == Some(ActivationResult::<ActivationLease>::AlreadyFrontmost)
            <==> step is AlreadyFrontmost,
        step.result_model() == Some(ActivationResult::<ActivationLease>::Unavailable)
            <==> step is Unavailable || step is Undo,
{
}

/// The three phases are three different bits.
pub proof fn phases_are_single_bits(phase: GesturePhase, bits: i64, other: GesturePhase, more: i64)
    requires
        call_ensures(GesturePhase::bits, (phase,), bits),
        call_ensures(GesturePhase::bits, (other,), more),
    ensures
        bits == more <==> phase == other,
        bits == 1 <==> phase == GesturePhase::Began,
        bits == 2 <==> phase == GesturePhase::Changed,
        bits == 4 <==> phase == GesturePhase::Ended,
{
}

/// The fields of an event are those of a zoom gesture, with the bits of its
/// phase and its own amount.
pub proof fn an_event_has_its_phase_and_amount<A>(
    phase: GesturePhase,
    bits: i64,
    amount: Amount<A>,
    fields: EventFields<A>,
)
    requires
        call_ensures(GesturePhase::bits, (phase,), bits),
        call_ensures(event_fields::<A>, (phase, amount), fields),
    ensures
        fields.event_type == 29,
        fields.hid_type == 8,
        fields.phase == bits,
        fields.magnification == amount,
{
}

/// Only an application that was activated gets the events itself, after it had
/// its time; in every other case they go to the application in front at once.
/// A lease is given back, after a while, exactly where there is one.
pub proof fn only_an_activated_application_is_routed_to<W, L>(
    hovered: Option<(W, ActivationResult<L>)>,
    plan: RoutePlan<W, L>,
    settle_ms: Option<u64>,
)
    requires
        call_ensures(route_for_pointer::<W, L>, (hovered,), plan),
        call_ensures(finish_route::<W, L>, (&plan.route,), settle_ms),
    ensures
        match hovered {
            Some((target, ActivationResult::Activated(lease))) => plan.route == (Route::Background {
                target,
                lease,
            }) && plan.settle_ms == 50 && settle_ms == Some(12u64),
            _ => plan.route is Focused,
        },
        plan.route is Focused ==> plan.settle_ms == 0 && settle_ms is None,
{
}

/// A stream waits for a pause exactly during a gesture.
pub proof fn a_pause_is_waited_for_during_a_gesture<R: Copy, A: Copy>(
    stream: MagnifyStream<R, A>,
    wait: Wait,
)
    requires
        call_ensures(MagnifyStream::<R, A>::wait, (&stream,), wait),
    ensures
        stream is Active ==> wait == Wait::Millis(80),
        !(stream is Active) ==> wait == Wait::Forever,
{
}

/// A search starts exactly where every call for it is there, at the topmost
/// window.
pub proof fn a_search_needs_every_call(
    connection: Option<i32>,
    find_window: bool,
    connection_pid: bool,
    search: Option<PointerSearch>,
)
    requires
        call_ensures(PointerSearch::start, (connection, find_window, connection_pid), search),
    ensures
        search is Some <==> connection is Some && find_window && connection_pid,
        search matches Some(s) ==> s.connection == connection->0 && !s.below,
{
}

/// A window is found exactly where the hit is a window with an owner and its
/// process is known, and it is that window, of that owner and process, with both
/// places of the pointer.
pub proof fn a_found_window_is_the_one_that_was_hit<P>(
    hit: Hit,
    status: i32,
    pid: i32,
    screen_point: P,
    window_point: P,
    window: Option<HoveredWindow<P>>,
)
    requires
        call_ensures(
            hovered_window::<P>,
            (hit, status, pid, screen_point, window_point),
            window,
        ),
    ensures
        window is Some <==> hit.status == 0 && hit.window_id != 0 && hit.owner != 0 && status == 0
            && pid > 0,
        window matches Some(w) ==> w.pid == pid && w.window_id == hit.window_id && w.connection_id
            == hit.owner && w.screen_point == screen_point && w.window_point == window_point,
{
}

/// The focus is taken from the process in front and given to that of the window;
/// giving a lease back takes it from that process again and brings the other one
/// to the front, as far as the calls are there, and never with its windows.
pub proof fn a_lease_undoes_what_was_activated(
    window_id: u32,
    previous: u64,
    target: u64,
    posts: (RecordPost, RecordPost),
    post_record: bool,
    set_front: bool,
    plan: RestorePlan,
    request: FrontRequest,
)
    requires
        call_ensures(activation_records, (window_id, previous, target), posts),
        call_ensures(
            ActivationLease::restore,
            (&ActivationLease { previous, target, window_id }, post_record, set_front),
            plan,
        ),
        call_ensures(front_request, (previous,), request),
    ensures
        posts.0.psn == previous && posts.0.record@[0x8A] == 2,
        posts.1.psn == target && posts.1.record@[0x8A] == 1,
        posts.0.record@ == record_model(window_id, 2),
        posts.1.record@ == record_model(window_id, 1),
        plan.record is Some <==> post_record,
        plan.record matches Some(post) ==> post.psn == target && post.record@ == record_model(
            window_id,
            2,
        ),
        plan.front is Some <==> set_front,
        plan.front matches Some(front) ==> front == request,
        request.psn == previous && request.window == 0 && request.options == 0x400,
{
}

} // verus!
