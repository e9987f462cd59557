use openlogi::inject::magnify::{
    after_delivery, delivery, event_fields, finish_route, route_for_pointer, ActivationResult,
    Amount, Delivery, GesturePhase, MagnifyStream, Route, StreamAction, StreamEvent, Wait,
    BACKGROUND_ACTIVATION_SETTLE_MS, FIELD_HID_TYPE, FIELD_MAGNIFICATION, FIELD_PHASE,
};
use openlogi::inject::skylight::{
    activation_records, event_record, focus_record, front_request, hovered_window, Activation,
    ActivationEvent, ActivationLease, ActivationStep, Hit, HoveredWindow, PointerSearch,
    SearchStep, Symbols,
    EVENT_RECORD_LEN, FOCUS_MARKER_OFFSET, NO_WINDOWS, WINDOW_ID_OFFSET,
};

#[test]
fn gesture_phases_use_iohid_bit_values() {
    assert_eq!(GesturePhase::Began.bits(), 1);
    assert_eq!(GesturePhase::Changed.bits(), 2);
    assert_eq!(GesturePhase::Ended.bits(), 4);
}

fn post(phase: GesturePhase, amount: Amount<i32>, route: u8) -> StreamAction<u8, i32> {
    StreamAction::Post { phase, amount, route }
}

#[test]
fn a_flick_is_one_gesture() {
    let mut stream: MagnifyStream<u8, i32> = MagnifyStream::new();
    assert_eq!(stream.wait(), Wait::Forever);
    assert_eq!(stream.on_event(StreamEvent::Turned(5)), vec![StreamAction::FindRoute]);
    assert_eq!(
        stream.on_event(StreamEvent::Routed(3)),
        vec![
            post(GesturePhase::Began, Amount::Zero, 3),
            post(GesturePhase::Changed, Amount::Turn(5), 3),
        ]
    );
    assert_eq!(stream.wait(), Wait::Millis(80));
    assert_eq!(
        stream.on_event(StreamEvent::Turned(-2)),
        vec![post(GesturePhase::Changed, Amount::Turn(-2), 3)]
    );
    assert_eq!(
        stream.on_event(StreamEvent::Paused),
        vec![post(GesturePhase::Ended, Amount::Zero, 3), StreamAction::FinishRoute(3)]
    );
    assert_eq!(stream.wait(), Wait::Forever);
    assert_eq!(stream.on_event(StreamEvent::Closed), vec![StreamAction::Stop]);
}

#[test]
fn a_closed_stream_ends_its_gesture() {
    let mut stream: MagnifyStream<u8, i32> = MagnifyStream::new();
    stream.on_event(StreamEvent::Turned(4));
    stream.on_event(StreamEvent::Routed(1));
    assert_eq!(
        stream.on_event(StreamEvent::Closed),
        vec![
            post(GesturePhase::Ended, Amount::Zero, 1),
            StreamAction::FinishRoute(1),
            StreamAction::Stop,
        ]
    );
}

#[test]
fn turns_wait_for_the_route_in_their_order() {
    let mut stream: MagnifyStream<u8, i32> = MagnifyStream::new();
    stream.on_event(StreamEvent::Turned(1));
    assert!(stream.on_event(StreamEvent::Turned(2)).is_empty());
    assert!(stream.on_event(StreamEvent::Paused).is_empty());
    assert_eq!(stream.wait(), Wait::Forever);
    assert!(stream.on_event(StreamEvent::Closed).is_empty());
    assert_eq!(
        stream.on_event(StreamEvent::Routed(8)),
        vec![
            post(GesturePhase::Began, Amount::Zero, 8),
            post(GesturePhase::Changed, Amount::Turn(1), 8),
            post(GesturePhase::Changed, Amount::Turn(2), 8),
            post(GesturePhase::Ended, Amount::Zero, 8),
            StreamAction::FinishRoute(8),
            StreamAction::Stop,
        ]
    );
}

#[test]
fn without_a_turn_nothing_is_posted() {
    let mut stream: MagnifyStream<u8, i32> = MagnifyStream::new();
    assert!(stream.on_event(StreamEvent::Routed(1)).is_empty());
    assert!(stream.on_event(StreamEvent::Paused).is_empty());
    assert_eq!(stream.on_event(StreamEvent::Closed), vec![StreamAction::Stop]);
}

#[test]
fn every_gesture_looks_for_its_own_route() {
    let mut stream: MagnifyStream<u8, i32> = MagnifyStream::new();
    for route in [1, 2] {
        assert_eq!(stream.on_event(StreamEvent::Turned(7)), vec![StreamAction::FindRoute]);
        stream.on_event(StreamEvent::Routed(route));
        assert!(stream.on_event(StreamEvent::Routed(9)).is_empty());
        assert_eq!(
            stream.on_event(StreamEvent::Paused),
            vec![post(GesturePhase::Ended, Amount::Zero, route), StreamAction::FinishRoute(route)]
        );
    }
}

fn window() -> HoveredWindow<(i32, i32)> {
    HoveredWindow {
        pid: 41,
        window_id: 6,
        connection_id: 78,
        screen_point: (1, 2),
        window_point: (3, 4),
    }
}

#[test]
fn only_an_activated_application_gets_its_own_route() {
    let plan = route_for_pointer(Some((window(), ActivationResult::Activated(9))));
    assert_eq!(plan.route, Route::Background { target: window(), lease: 9 });
    assert_eq!(plan.settle_ms, BACKGROUND_ACTIVATION_SETTLE_MS);
    assert_eq!(plan.settle_ms, 50);
    assert_eq!(finish_route(&plan.route), Some(12));
    assert_eq!(
        delivery(true, &plan.route),
        Some(Delivery::Process { pid: 41, screen_point: (1, 2), window_point: (3, 4) })
    );
    assert_eq!(delivery(false, &plan.route), None);
    for hovered in [
        None,
        Some((window(), ActivationResult::AlreadyFrontmost)),
        Some((window(), ActivationResult::Unavailable)),
    ] {
        let plan = route_for_pointer::<HoveredWindow<(i32, i32)>, i32>(hovered);
        assert_eq!(plan.route, Route::Focused);
        assert_eq!(plan.settle_ms, 0);
        assert_eq!(finish_route(&plan.route), None);
        assert_eq!(delivery(true, &plan.route), Some(Delivery::CommonTap));
        assert_eq!(delivery(false, &plan.route), None);
    }
}

#[test]
fn events_carry_their_fields_and_fall_back() {
    let fields = event_fields(GesturePhase::Ended, Amount::Turn(3));
    assert_eq!(fields.magnification, Amount::Turn(3));
    assert_eq!((fields.event_type, fields.hid_type, fields.phase), (29, 8, 4));
    assert_eq!((FIELD_HID_TYPE, FIELD_MAGNIFICATION, FIELD_PHASE), (110, 113, 132));
    let process = Delivery::Process { pid: 41, screen_point: 1, window_point: 2 };
    assert_eq!(after_delivery(&process, false), Some(Delivery::CommonTap));
    assert_eq!(after_delivery(&process, true), None);
    assert_eq!(after_delivery(&Delivery::<i32>::CommonTap, true), None);
    assert_eq!(after_delivery(&Delivery::<i32>::CommonTap, false), None);
}

#[test]
fn records_name_their_window() {
    let record = event_record(0x1234_5678);
    assert_eq!(record.len(), EVENT_RECORD_LEN);
    assert_eq!((record[0x04], record[0x08]), (0xF8, 0x0D));
    assert_eq!(
        record[WINDOW_ID_OFFSET..WINDOW_ID_OFFSET + 4],
        0x1234_5678_u32.to_le_bytes()
    );
    assert_eq!(record.iter().filter(|b| **b != 0).count(), 6);
    let marked = focus_record(0x1234_5678, 2);
    assert_eq!(marked[FOCUS_MARKER_OFFSET], 2);
    assert_eq!(marked.iter().filter(|b| **b != 0).count(), 7);
    assert_eq!(event_record(u32::MAX)[0x3C..0x40], [0xFF; 4]);
}

fn search_from(connection: i32) -> PointerSearch {
    PointerSearch::start(Some(connection), true, true).unwrap()
}

#[test]
fn search_needs_every_call() {
    assert_eq!(search_from(5), PointerSearch { connection: 5, below: false });
    assert_eq!(PointerSearch::start(None, true, true), None);
    assert_eq!(PointerSearch::start(Some(5), false, true), None);
    assert_eq!(PointerSearch::start(Some(5), true, false), None);
}

#[test]
fn search_passes_one_own_window_over() {
    let own = Hit { status: 0, window_id: 5, owner: 77 };
    let mut search = search_from(77);
    assert_eq!(search.on_hit(own), SearchStep::SearchBelow { window_id: 5 });
    assert_eq!(search.on_hit(own), SearchStep::AskProcess { owner: 77 });

    let mut search = search_from(77);
    let other = Hit { status: 0, window_id: 6, owner: 78 };
    assert_eq!(search.on_hit(other), SearchStep::AskProcess { owner: 78 });
    for useless in [
        Hit { status: 1, window_id: 6, owner: 78 },
        Hit { status: 0, window_id: 0, owner: 78 },
        Hit { status: 0, window_id: 6, owner: 0 },
    ] {
        assert_eq!(search_from(77).on_hit(useless), SearchStep::NotFound);
        assert!(hovered_window(useless, 0, 41, (1, 2), (3, 4)).is_none());
    }

    let window = hovered_window(other, 0, 41, (1, 2), (3, 4)).unwrap();
    assert_eq!((window.pid, window.window_id, window.connection_id), (41, 6, 78));
    assert_eq!((window.screen_point, window.window_point), ((1, 2), (3, 4)));
    assert!(hovered_window(other, 0, 0, (1, 2), (3, 4)).is_none());
    assert!(hovered_window(other, -1, 41, (1, 2), (3, 4)).is_none());
}

const ALL: Symbols =
    Symbols { get_front: true, get_psn: true, post_record: true, set_front: true };

fn after(events: &[ActivationEvent]) -> ActivationStep {
    let mut activation = Activation::new(6);
    let mut last = ActivationStep::Unavailable;
    for event in events {
        last = activation.on_event(*event);
    }
    last
}

#[test]
fn activation_goes_through() {
    let symbols = ActivationEvent::Symbols(ALL);
    let front = ActivationEvent::Front { status: 0, psn: 10 };
    let target = ActivationEvent::Target { status: 0, psn: 20 };
    assert_eq!(after(&[symbols]), ActivationStep::AskFront);
    assert_eq!(after(&[symbols, front]), ActivationStep::AskTarget);
    assert_eq!(
        after(&[symbols, front, target]),
        ActivationStep::PostRecords { previous: 10, target: 20 }
    );
    let both = ActivationEvent::Records { defocused: true, focused: true };
    assert_eq!(
        after(&[symbols, front, target, both]),
        ActivationStep::Activated(ActivationLease { previous: 10, target: 20, window_id: 6 })
    );
}

#[test]
fn activation_stops_or_is_undone() {
    let symbols = ActivationEvent::Symbols(ALL);
    let front = ActivationEvent::Front { status: 0, psn: 10 };
    let target = ActivationEvent::Target { status: 0, psn: 20 };
    let blind = ActivationEvent::Symbols(Symbols { set_front: false, ..ALL });
    assert_eq!(after(&[blind]), ActivationStep::Unavailable);
    assert_eq!(
        after(&[symbols, ActivationEvent::Front { status: -1, psn: 0 }]),
        ActivationStep::Unavailable
    );
    assert_eq!(
        after(&[symbols, front, ActivationEvent::Target { status: -1, psn: 20 }]),
        ActivationStep::Unavailable
    );
    assert_eq!(
        after(&[symbols, front, ActivationEvent::Target { status: 0, psn: 10 }]),
        ActivationStep::AlreadyFrontmost
    );
    for (defocused, focused) in [(true, false), (false, true), (false, false)] {
        assert_eq!(
            after(&[symbols, front, target, ActivationEvent::Records { defocused, focused }]),
            ActivationStep::Undo { previous: 10 }
        );
    }
    assert_eq!(front_request(10).options, NO_WINDOWS);
}

#[test]
fn every_end_of_an_activation_has_a_result() {
    let lease = ActivationLease { previous: 10, target: 20, window_id: 6 };
    assert_eq!(ActivationStep::AskFront.result(), None);
    assert_eq!(ActivationStep::AskTarget.result(), None);
    assert_eq!(ActivationStep::PostRecords { previous: 10, target: 20 }.result(), None);
    assert_eq!(
        ActivationStep::Undo { previous: 10 }.result(),
        Some(ActivationResult::Unavailable)
    );
    assert_eq!(ActivationStep::Unavailable.result(), Some(ActivationResult::Unavailable));
    assert_eq!(
        ActivationStep::AlreadyFrontmost.result(),
        Some(ActivationResult::AlreadyFrontmost)
    );
    assert_eq!(
        ActivationStep::Activated(lease).result(),
        Some(ActivationResult::Activated(lease))
    );
    let refused = after(&[
        ActivationEvent::Symbols(ALL),
        ActivationEvent::Front { status: 0, psn: 10 },
        ActivationEvent::Target { status: 0, psn: 20 },
        ActivationEvent::Records { defocused: true, focused: false },
    ]);
    assert_eq!(refused.result(), Some(ActivationResult::Unavailable));
}

#[test]
fn leases_are_given_back() {
    let (lost, gained) = activation_records(6, 10, 20);
    assert_eq!((lost.psn, lost.record), (10, focus_record(6, 2)));
    assert_eq!((gained.psn, gained.record), (20, focus_record(6, 1)));
    let lease = ActivationLease { previous: 10, target: 20, window_id: 6 };
    let plan = lease.restore(true, true);
    let record = plan.record.unwrap();
    assert_eq!((record.psn, record.record), (20, focus_record(6, 2)));
    let front = plan.front.unwrap();
    assert_eq!((front.psn, front.window, front.options), (10, 0, 0x400));
    let plan = lease.restore(false, false);
    assert!(plan.record.is_none() && plan.front.is_none());
}
