//! Magnification gestures made of the turns of a wheel.
//!
//! A flick of the wheel is a stream, not a series of zoom commands: its turns
//! become one gesture that begins, changes, and ends after a short pause.

use crate::inject::skylight::HoveredWindow;
use vstd::prelude::*;

verus! {

/// A turn of the wheel within this many milliseconds continues the gesture.
pub const END_AFTER_IDLE_MS: u64 = 80;

/// Milliseconds that an application gets to take its activation in.
pub const BACKGROUND_ACTIVATION_SETTLE_MS: u64 = 50;

/// Milliseconds that an application gets to take the end of a gesture in.
pub const BACKGROUND_RESTORE_SETTLE_MS: u64 = 12;

/// The event type of a gesture.
pub const GESTURE_EVENT: u32 = 29;

/// The subtype of a zoom gesture.
pub const HID_ZOOM: i64 = 8;

/// The event field of the subtype.
pub const FIELD_HID_TYPE: u32 = 110;

/// The event field of the amount.
pub const FIELD_MAGNIFICATION: u32 = 113;

/// The event field of the phase.
pub const FIELD_PHASE: u32 = 132;

/// Where in a gesture an event stands.
#[derive(Debug, Clone, Copy, PartialEq, Eq, Structural)]
pub enum GesturePhase {
    Began,
    Changed,
    Ended,
}

impl GesturePhase {
    /// The bits of the phase in an event.
    pub fn bits(self) -> (bits: i64)
        ensures
            bits == match self {
                GesturePhase::Began => 1i64,
                GesturePhase::Changed => 2i64,
                GesturePhase::Ended => 4i64,
            },
    {
        match self {
            GesturePhase::Began => 1,
            GesturePhase::Changed => 2,
            GesturePhase::Ended => 4,
        }
    }
}

/// How much an event magnifies.
#[derive(Debug, Clone, Copy, PartialEq, Eq, Structural)]
pub enum Amount<A> {
    Zero,
    /// As much as one turn of the wheel asks for.
    Turn(A),
}

/// What happens to the stream.
#[derive(Debug, Clone, Copy, PartialEq, Eq, Structural)]
pub enum StreamEvent<R, A> {
    /// The wheel turned by an amount.
    Turned(A),
    /// The way was found that the events of a new gesture take.
    Routed(R),
    /// The wheel rested for [`END_AFTER_IDLE_MS`].
    Paused,
    /// No turn will come any more.
    Closed,
}

/// One thing for the program to do.
#[derive(Debug, Clone, Copy, PartialEq, Eq, Structural)]
pub enum StreamAction<R, A> {
    /// Find the way that the events of a new gesture take.
    FindRoute,
    /// Post an event.
    Post { phase: GesturePhase, amount: Amount<A>, route: R },
    /// The gesture is over: give the way up.
    FinishRoute(R),
    /// End the stream.
    Stop,
}

/// How long to wait for the next turn.
#[derive(Debug, Clone, Copy, PartialEq, Eq, Structural)]
pub enum Wait {
    Forever,
    Millis(u64),
}

/// The stream of turns.
#[derive(Debug)]
pub enum MagnifyStream<R, A> {
    /// No gesture is under way.
    Idle,
    /// A gesture is to begin once its route is found. Turns wait for it, and so
    /// does the end of the stream.
    Finding { waiting: Vec<A>, closing: bool },
    /// A gesture is under way over a route.
    Active { route: R },
}

/// A [`MagnifyStream`] as a mathematical value.
pub ghost enum StreamModel<R, A> {
    Idle,
    Finding { waiting: Seq<A>, closing: bool },
    Active { route: R },
}

impl<R, A> View for MagnifyStream<R, A> {
    type V = StreamModel<R, A>;

    open spec fn view(&self) -> StreamModel<R, A> {
        match self {
            MagnifyStream::Idle => StreamModel::Idle,
            MagnifyStream::Finding { waiting, closing } => StreamModel::Finding {
                waiting: waiting@,
                closing: *closing,
            },
            MagnifyStream::Active { route } => StreamModel::Active { route: *route },
        }
    }
}

/// The event of one turn.
pub open spec fn changed<R, A>(amount: A, route: R) -> StreamAction<R, A> {
    StreamAction::Post { phase: GesturePhase::Changed, amount: Amount::Turn(amount), route }
}

/// The events of several turns.
pub open spec fn changes<R, A>(amounts: Seq<A>, route: R) -> Seq<StreamAction<R, A>> {
    amounts.map_values(|a: A| changed(a, route))
}

/// An event at either end of a gesture.
pub open spec fn edge<R, A>(phase: GesturePhase, route: R) -> StreamAction<R, A> {
    StreamAction::Post { phase, amount: Amount::Zero, route }
}

/// The end of a gesture: its last event, after which its route is given up.
pub open spec fn closing_actions<R, A>(route: R) -> Seq<StreamAction<R, A>> {
    seq![edge(GesturePhase::Ended, route), StreamAction::FinishRoute(route)]
}

/// The stream after an event.
pub open spec fn next_stream<R, A>(
    stream: StreamModel<R, A>,
    event: StreamEvent<R, A>,
) -> StreamModel<R, A> {
    match stream {
        StreamModel::Idle => match event {
            StreamEvent::Turned(amount) => StreamModel::Finding {
                waiting: seq![amount],
                closing: false,
            },
            _ => stream,
        },
        StreamModel::Finding { waiting, closing } => match event {
            StreamEvent::Turned(amount) => StreamModel::Finding {
                waiting: waiting.push(amount),
                closing,
            },
            StreamEvent::Routed(route) => if closing {
                StreamModel::Idle
            } else {
                StreamModel::Active { route }
            },
            StreamEvent::Closed => StreamModel::Finding { waiting, closing: true },
            StreamEvent::Paused => stream,
        },
        StreamModel::Active { route } => match event {
            StreamEvent::Paused => StreamModel::Idle,
            StreamEvent::Closed => StreamModel::Idle,
            _ => stream,
        },
    }
}

/// What an event asks for.
pub open spec fn actions_model<R, A>(
    stream: StreamModel<R, A>,
    event: StreamEvent<R, A>,
) -> Seq<StreamAction<R, A>> {
    match stream {
        StreamModel::Idle => match event {
            StreamEvent::Turned(_) => seq![StreamAction::FindRoute],
            StreamEvent::Closed => seq![StreamAction::Stop],
            _ => Seq::empty(),
        },
        StreamModel::Finding { waiting, closing } => match event {
            StreamEvent::Routed(route) => {
                let begun = seq![edge(GesturePhase::Began, route)] + changes(waiting, route);
                if closing {
                    begun + closing_actions(route).push(StreamAction::Stop)
                } else {
                    begun
                }
            },
            _ => Seq::empty(),
        },
        StreamModel::Active { route } => match event {
            StreamEvent::Turned(amount) => seq![changed(amount, route)],
            StreamEvent::Paused => closing_actions(route),
            StreamEvent::Closed => closing_actions(route).push(StreamAction::Stop),
            StreamEvent::Routed(_) => Seq::empty(),
        },
    }
}

/// Writes down the end of a gesture.
fn push_end<R: Copy, A>(actions: &mut Vec<StreamAction<R, A>>, route: R)
    ensures
        final(actions)@ == old(actions)@ + closing_actions::<R, A>(route),
{
    let ghost before = actions@;
    actions.push(
        StreamAction::Post { phase: GesturePhase::Ended, amount: Amount::Zero, route },
    );
    actions.push(StreamAction::FinishRoute(route));
    assert(actions@ =~= before + closing_actions::<R, A>(route));
}

impl<R: Copy, A: Copy> MagnifyStream<R, A> {
    /// The stream before the first turn.
    pub fn new() -> (stream: MagnifyStream<R, A>)
        ensures
            stream@ is Idle,
    {
        MagnifyStream::Idle
    }

    /// How long to wait for the next turn: as long as it takes, or during a
    /// gesture until the pause that ends it.
    pub fn wait(&self) -> (wait: Wait)
        ensures
            wait == if self@ is Active {
                Wait::Millis(END_AFTER_IDLE_MS)
            } else {
                Wait::Forever
            },
    {
        match self {
            MagnifyStream::Active { .. } => Wait::Millis(END_AFTER_IDLE_MS),
            _ => Wait::Forever,
        }
    }

    /// Takes an event in, and says what to do, in order.
    pub fn on_event(&mut self, event: StreamEvent<R, A>) -> (actions: Vec<StreamAction<R, A>>)
        ensures
            final(self)@ == next_stream(old(self)@, event),
            actions@ == actions_model(old(self)@, event),
    {
        let ghost model = actions_model(self@, event);
        let mut actions: Vec<StreamAction<R, A>> = Vec::new();
        let mut stream: MagnifyStream<R, A> = MagnifyStream::Idle;
        std::mem::swap(&mut stream, self);
        match stream {
            MagnifyStream::Idle => match event {
                StreamEvent::Turned(amount) => {
                    let mut waiting: Vec<A> = Vec::new();
                    waiting.push(amount);
                    assert(waiting@ =~= seq![amount]);
                    *self = MagnifyStream::Finding { waiting, closing: false };
                    actions.push(StreamAction::FindRoute);
                },
                StreamEvent::Closed => {
                    actions.push(StreamAction::Stop);
                },
                StreamEvent::Routed(_) => {},
                StreamEvent::Paused => {},
            },
            MagnifyStream::Finding { waiting, closing } => match event {
                StreamEvent::Turned(amount) => {
                    let mut waiting: Vec<A> = waiting;
                    waiting.push(amount);
                    *self = MagnifyStream::Finding { waiting, closing };
                },
                StreamEvent::Routed(route) => {
                    actions.push(
                        StreamAction::Post {
                            phase: GesturePhase::Began,
                            amount: Amount::Zero,
                            route,
                        },
                    );
                    let mut i: usize = 0;
                    while i < waiting.len()
                        invariant
                            i <= waiting@.len(),
                            actions@ == seq![edge::<R, A>(GesturePhase::Began, route)] + changes(
                                waiting@.take(i as int),
                                route,
                            ),
                        decreases waiting@.len() - i,
                    {
                        actions.push(
                            StreamAction::Post {
                                phase: GesturePhase::Changed,
                                amount: Amount::Turn(waiting[i]),
                                route,
                            },
                        );
                        i += 1;
                        assert(actions@ =~= seq![edge::<R, A>(GesturePhase::Began, route)]
                            + changes(waiting@.take(i as int), route));
                    }
                    assert(waiting@.take(i as int) =~= waiting@);
                    if closing {
                        push_end(&mut actions, route);
                        actions.push(StreamAction::Stop);
                    } else {
                        *self = MagnifyStream::Active { route };
                    }
                },
                StreamEvent::Closed => {
                    *self = MagnifyStream::Finding { waiting, closing: true };
                },
                StreamEvent::Paused => {
                    *self = MagnifyStream::Finding { waiting, closing };
                },
            },
            MagnifyStream::Active { route } => match event {
                StreamEvent::Turned(amount) => {
                    actions.push(
                        StreamAction::Post {
                            phase: GesturePhase::Changed,
                            amount: Amount::Turn(amount),
                            route,
                        },
                    );
                    *self = MagnifyStream::Active { route };
                },
                StreamEvent::Paused => {
                    push_end(&mut actions, route);
                },
                StreamEvent::Closed => {
                    push_end(&mut actions, route);
                    actions.push(StreamAction::Stop);
                },
                StreamEvent::Routed(_) => {
                    *self = MagnifyStream::Active { route };
                },
            },
        }
        assert(actions@ =~= model);
        actions
    }
}

/// The stream after several events.
pub open spec fn stream_after<R, A>(events: Seq<StreamEvent<R, A>>) -> StreamModel<R, A>
    decreases events.len(),
{
    if events.len() == 0 {
        StreamModel::Idle
    } else {
        next_stream(stream_after(events.drop_last()), events.last())
    }
}

/// Everything that several events ask for.
pub open spec fn all_actions<R, A>(events: Seq<StreamEvent<R, A>>) -> Seq<StreamAction<R, A>>
    decreases events.len(),
{
    if events.len() == 0 {
        Seq::empty()
    } else {
        all_actions(events.drop_last()) + actions_model(
            stream_after(events.drop_last()),
            events.last(),
        )
    }
}

/// The amounts of all turns, in order.
pub open spec fn turned<R, A>(events: Seq<StreamEvent<R, A>>) -> Seq<A>
    decreases events.len(),
{
    if events.len() == 0 {
        Seq::empty()
    } else {
        match events.last() {
            StreamEvent::Turned(amount) => turned(events.drop_last()).push(amount),
            _ => turned(events.drop_last()),
        }
    }
}

/// The amounts of all events that were posted for a turn, in order.
pub open spec fn posted<R, A>(actions: Seq<StreamAction<R, A>>) -> Seq<A>
    decreases actions.len(),
{
    if actions.len() == 0 {
        Seq::empty()
    } else {
        match actions.last() {
            StreamAction::Post { amount: Amount::Turn(amount), .. } => posted(
                actions.drop_last(),
            ).push(amount),
            _ => posted(actions.drop_last()),
        }
    }
}

impl<R, A> StreamModel<R, A> {
    /// The amounts of the turns that wait for a route.
    pub open spec fn waiting(self) -> Seq<A> {
        match self {
            StreamModel::Finding { waiting, .. } => waiting,
            _ => Seq::empty(),
        }
    }
}

/// How far an observer of the actions has followed a gesture.
pub ghost enum Seen<R> {
    /// No gesture is under way.
    Between,
    /// A route is being looked for, and a gesture must begin next.
    Looking,
    /// A gesture has begun and must change next.
    Begun(R),
    /// A gesture has changed at least once.
    Moving(R),
    /// A gesture has ended, and its route must be given up next.
    Over(R),
    /// The actions made no gesture.
    Broken,
}

/// What the observer makes of one more action.
pub open spec fn observe<R, A>(seen: Seen<R>, action: StreamAction<R, A>) -> Seen<R> {
    match (seen, action) {
        (Seen::Between, StreamAction::FindRoute) => Seen::Looking,
        (Seen::Between, StreamAction::Stop) => Seen::Between,
        (
            Seen::Looking,
            StreamAction::Post { phase: GesturePhase::Began, amount: Amount::Zero, route },
        ) => Seen::Begun(route),
        (
            Seen::Begun(r),
            StreamAction::Post { phase: GesturePhase::Changed, amount: Amount::Turn(_), route },
        ) => if r == route {
            Seen::Moving(r)
        } else {
            Seen::Broken
        },
        (
            Seen::Moving(r),
            StreamAction::Post { phase: GesturePhase::Changed, amount: Amount::Turn(_), route },
        ) => if r == route {
            Seen::Moving(r)
        } else {
            Seen::Broken
        },
        (
            Seen::Moving(r),
            StreamAction::Post { phase: GesturePhase::Ended, amount: Amount::Zero, route },
        ) => if r == route {
            Seen::Over(r)
        } else {
            Seen::Broken
        },
        (Seen::Over(r), StreamAction::FinishRoute(route)) => if r == route {
            Seen::Between
        } else {
            Seen::Broken
        },
        _ => Seen::Broken,
    }
}

/// What the observer makes of several actions.
pub open spec fn observe_all<R, A>(seen: Seen<R>, actions: Seq<StreamAction<R, A>>) -> Seen<R>
    decreases actions.len(),
{
    if actions.len() == 0 {
        seen
    } else {
        observe(observe_all(seen, actions.drop_last()), actions.last())
    }
}

/// Observing one more action.
proof fn lemma_observe_push<R, A>(
    seen: Seen<R>,
    actions: Seq<StreamAction<R, A>>,
    action: StreamAction<R, A>,
)
    ensures
        observe_all(seen, actions.push(action)) == observe(observe_all(seen, actions), action),
{
    assert(actions.push(action).drop_last() =~= actions);
}

/// Observing two stretches one after the other is observing both.
proof fn lemma_observe_concat<R, A>(
    seen: Seen<R>,
    first: Seq<StreamAction<R, A>>,
    second: Seq<StreamAction<R, A>>,
)
    ensures
        observe_all(seen, first + second) == observe_all(observe_all(seen, first), second),
    decreases second.len(),
{
    if second.len() == 0 {
        assert(first + second =~= first);
    } else {
        lemma_observe_concat(seen, first, second.drop_last());
        assert((first + second).drop_last() =~= first + second.drop_last());
        assert((first + second).last() == second.last());
    }
}

/// The turns of a gesture that has begun keep it going.
proof fn lemma_observe_changes<R, A>(amounts: Seq<A>, route: R)
    requires
        amounts.len() > 0,
    ensures
        observe_all(Seen::Begun(route), changes(amounts, route)) == Seen::Moving(route),
    decreases amounts.len(),
{
    let all = changes(amounts, route);
    let front = changes(amounts.drop_last(), route);
    assert(all =~= front.push(changed(amounts.last(), route)));
    lemma_observe_push(Seen::Begun(route), front, changed(amounts.last(), route));
    if amounts.len() > 1 {
        lemma_observe_changes(amounts.drop_last(), route);
    } else {
        assert(front =~= Seq::empty());
    }
}

/// The end of a gesture is complete.
proof fn lemma_observe_end<R, A>(route: R)
    ensures
        observe_all(Seen::Moving(route), closing_actions::<R, A>(route)) == Seen::<R>::Between,
{
    let ended = edge::<R, A>(GesturePhase::Ended, route);
    lemma_observe_push(Seen::Moving(route), Seq::<StreamAction<R, A>>::empty(), ended);
    assert(Seq::<StreamAction<R, A>>::empty().push(ended) =~= seq![ended]);
    lemma_observe_push(Seen::Moving(route), seq![ended], StreamAction::FinishRoute(route));
    assert(seq![ended].push(StreamAction::FinishRoute(route)) =~= closing_actions::<R, A>(route));
}

/// Whatever happens to the stream, its actions are whole gestures and at most
/// one that is under way. Each has its route looked for first, begins, changes
/// at least once, and ends, all over that one route; directly after its end,
/// and nowhere else, the route is given up.
pub proof fn actions_are_whole_gestures<R, A>(events: Seq<StreamEvent<R, A>>)
    ensures
        observe_all(Seen::Between, all_actions(events)) == match stream_after(events) {
            StreamModel::Idle => Seen::<R>::Between,
            StreamModel::Finding { .. } => Seen::Looking,
            StreamModel::Active { route } => Seen::Moving(route),
        },
        stream_after(events) is Finding ==> stream_after(events).waiting().len() > 0,
    decreases events.len(),
{
    if events.len() > 0 {
        let front = events.drop_last();
        actions_are_whole_gestures(front);
        let stream = stream_after(front);
        let event = events.last();
        let more = actions_model(stream, event);
        let seen = observe_all(Seen::Between, all_actions(front));
        lemma_observe_concat(Seen::Between, all_actions(front), more);
        match stream {
            StreamModel::Idle => match event {
                StreamEvent::Turned(_) => {
                    assert(more =~= Seq::empty().push(StreamAction::FindRoute));
                    lemma_observe_push(seen, Seq::empty(), StreamAction::<R, A>::FindRoute);
                },
                StreamEvent::Closed => {
                    assert(more =~= Seq::empty().push(StreamAction::Stop));
                    lemma_observe_push(seen, Seq::empty(), StreamAction::<R, A>::Stop);
                },
                _ => {},
            },
            StreamModel::Finding { waiting, closing } => match event {
                StreamEvent::Routed(route) => {
                    let began = edge::<R, A>(GesturePhase::Began, route);
                    let begun = seq![began] + changes(waiting, route);
                    assert(seq![began] =~= Seq::empty().push(began));
                    lemma_observe_push(seen, Seq::empty(), began);
                    lemma_observe_concat(seen, seq![began], changes(waiting, route));
                    lemma_observe_changes(waiting, route);
                    if closing {
                        let end = closing_actions::<R, A>(route);
                        lemma_observe_concat(seen, begun, end.push(StreamAction::Stop));
                        lemma_observe_push(Seen::Moving(route), end, StreamAction::Stop);
                        lemma_observe_end::<R, A>(route);
                    }
                },
                _ => {},
            },
            StreamModel::Active { route } => match event {
                StreamEvent::Turned(amount) => {
                    assert(more =~= Seq::empty().push(changed(amount, route)));
                    lemma_observe_push(seen, Seq::empty(), changed(amount, route));
                },
                StreamEvent::Paused => {
                    lemma_observe_end::<R, A>(route);
                },
                StreamEvent::Closed => {
                    let end = closing_actions::<R, A>(route);
                    lemma_observe_push(seen, end, StreamAction::Stop);
                    lemma_observe_end::<R, A>(route);
                },
                StreamEvent::Routed(_) => {},
            },
        }
    }
}

/// One more action posts at most its own amount.
proof fn lemma_posted_push<R, A>(actions: Seq<StreamAction<R, A>>, action: StreamAction<R, A>)
    ensures
        posted(actions.push(action)) == match action {
            StreamAction::Post { amount: Amount::Turn(amount), .. } => posted(actions).push(amount),
            _ => posted(actions),
        },
{
    assert(actions.push(action).drop_last() =~= actions);
}

/// Two stretches post the amounts of both.
proof fn lemma_posted_concat<R, A>(
    first: Seq<StreamAction<R, A>>,
    second: Seq<StreamAction<R, A>>,
)
    ensures
        posted(first + second) == posted(first) + posted(second),
    decreases second.len(),
{
    if second.len() == 0 {
        assert(first + second =~= first);
        assert(posted(first) + posted(second) =~= posted(first));
    } else {
        lemma_posted_concat(first, second.drop_last());
        assert((first + second).drop_last() =~= first + second.drop_last());
        assert((first + second).last() == second.last());
        assert(posted(first + second) =~= posted(first) + posted(second));
    }
}

/// The events of several turns post their amounts.
proof fn lemma_posted_changes<R, A>(amounts: Seq<A>, route: R)
    ensures
        posted(changes(amounts, route)) == amounts,
    decreases amounts.len(),
{
    if amounts.len() > 0 {
        let front = changes(amounts.drop_last(), route);
        assert(changes(amounts, route) =~= front.push(changed(amounts.last(), route)));
        lemma_posted_push(front, changed(amounts.last(), route));
        lemma_posted_changes(amounts.drop_last(), route);
        assert(amounts.drop_last().push(amounts.last()) =~= amounts);
    } else {
        assert(posted(changes(amounts, route)) =~= amounts);
    }
}

/// The end of a gesture posts no amount.
proof fn lemma_posted_end<R, A>(route: R)
    ensures
        posted(closing_actions::<R, A>(route)) == Seq::<A>::empty(),
        posted(closing_actions::<R, A>(route).push(StreamAction::Stop)) == Seq::<A>::empty(),
{
    let ended = edge::<R, A>(GesturePhase::Ended, route);
    lemma_posted_push(Seq::<StreamAction<R, A>>::empty(), ended);
    assert(Seq::<StreamAction<R, A>>::empty().push(ended) =~= seq![ended]);
    lemma_posted_push(seq![ended], StreamAction::FinishRoute(route));
    assert(seq![ended].push(StreamAction::FinishRoute(route)) =~= closing_actions::<R, A>(route));
    lemma_posted_push(closing_actions::<R, A>(route), StreamAction::Stop);
}

/// Every turn is posted once, with its amount and in its order; those that wait
/// for a route are the last ones.
pub proof fn every_turn_is_posted_once<R, A>(events: Seq<StreamEvent<R, A>>)
    ensures
        posted(all_actions(events)) + stream_after(events).waiting() == turned(events),
        !(stream_after(events) is Finding) ==> posted(all_actions(events)) == turned(events),
    decreases events.len(),
{
    if events.len() > 0 {
        let front = events.drop_last();
        every_turn_is_posted_once(front);
        let stream = stream_after(front);
        let event = events.last();
        let more = actions_model(stream, event);
        lemma_posted_concat(all_actions(front), more);
        match stream {
            StreamModel::Idle => match event {
                StreamEvent::Turned(_) => {
                    assert(more =~= Seq::empty().push(StreamAction::FindRoute));
                    lemma_posted_push(Seq::empty(), StreamAction::<R, A>::FindRoute);
                },
                StreamEvent::Closed => {
                    assert(more =~= Seq::empty().push(StreamAction::Stop));
                    lemma_posted_push(Seq::empty(), StreamAction::<R, A>::Stop);
                },
                _ => {},
            },
            StreamModel::Finding { waiting, closing } => match event {
                StreamEvent::Routed(route) => {
                    let began = edge::<R, A>(GesturePhase::Began, route);
                    let begun = seq![began] + changes(waiting, route);
                    assert(seq![began] =~= Seq::empty().push(began));
                    lemma_posted_push(Seq::empty(), began);
                    lemma_posted_concat(seq![began], changes(waiting, route));
                    lemma_posted_changes(waiting, route);
                    assert(posted(begun) =~= waiting);
                    if closing {
                        let end = closing_actions::<R, A>(route).push(StreamAction::Stop);
                        lemma_posted_concat(begun, end);
                        lemma_posted_end::<R, A>(route);
                    }
                    assert(posted(more) =~= waiting);
                },
                _ => {},
            },
            StreamModel::Active { route } => match event {
                StreamEvent::Turned(amount) => {
                    assert(more =~= Seq::empty().push(changed(amount, route)));
                    lemma_posted_push(Seq::empty(), changed(amount, route));
                },
                StreamEvent::Routed(_) => {},
                _ => {
                    lemma_posted_end::<R, A>(route);
                },
            },
        }
        assert(posted(all_actions(events)) + stream_after(events).waiting() =~= turned(events));
        if !(stream_after(events) is Finding) {
            assert(posted(all_actions(events)) =~= turned(events));
        }
    } else {
        assert(posted(all_actions(events)) + stream_after(events).waiting() =~= turned(events));
        assert(posted(all_actions(events)) =~= turned(events));
    }
}

/// Without a turn nothing is posted, and no route is looked for or given up.
pub proof fn no_turn_no_gesture<R, A>(events: Seq<StreamEvent<R, A>>)
    requires
        turned(events).len() == 0,
    ensures
        stream_after(events) is Idle,
        forall|i: int|
            0 <= i < all_actions(events).len() ==> #[trigger] all_actions(events)[i] is Stop,
    decreases events.len(),
{
    if events.len() > 0 {
        no_turn_no_gesture(events.drop_last());
    }
}

/// A gesture ends exactly when the wheel has paused or the stream is closed:
/// the last event of a gesture is among the actions of no other event, once its
/// route is known.
pub proof fn gestures_end_at_a_pause_or_a_close<R, A>(
    stream: StreamModel<R, A>,
    event: StreamEvent<R, A>,
    route: R,
)
    ensures
        stream is Active ==> (actions_model(stream, event).contains(
            edge(GesturePhase::Ended, route),
        ) <==> stream == (StreamModel::<R, A>::Active { route }) && (event is Paused
            || event is Closed)),
        stream is Finding ==> (actions_model(stream, event).contains(
            edge(GesturePhase::Ended, route),
        ) <==> event == StreamEvent::<R, A>::Routed(route) && stream->closing),
        stream is Idle ==> !actions_model(stream, event).contains(
            edge(GesturePhase::Ended, route),
        ),
{
    let more = actions_model(stream, event);
    let end = edge::<R, A>(GesturePhase::Ended, route);
    match stream {
        StreamModel::Active { route: r } => {
            if (event is Paused || event is Closed) && r == route {
                assert(more[0] == end);
            }
        },
        StreamModel::Finding { waiting, closing } => {
            if event == StreamEvent::<R, A>::Routed(route) && closing {
                assert(more[1 + waiting.len() as int] == end);
            }
        },
        StreamModel::Idle => {},
    }
}

/// The way that the events of a gesture take.
#[derive(Debug, Clone, Copy, PartialEq, Eq)]
pub enum Route<W, L> {
    /// To the application in front.
    Focused,
    /// To the window under the pointer, whose application was activated for as
    /// long as the lease is held.
    Background { target: W, lease: L },
}

/// Whether the application of a window could be activated in the background.
#[derive(Debug, Clone, Copy, PartialEq, Eq)]
pub enum ActivationResult<L> {
    /// It is in front already.
    AlreadyFrontmost,
    Activated(L),
    /// There is no way to do so.
    Unavailable,
}

/// A route, and how long to wait before it is used.
#[derive(Debug, Clone, Copy, PartialEq, Eq)]
pub struct RoutePlan<W, L> {
    pub route: Route<W, L>,
    pub settle_ms: u64,
}

/// Picks the route for the window under the pointer, where there is one, and
/// for what came of activating its application. Only an application that was
/// activated gets the events of its own; in every other case they go to the
/// application in front.
pub fn route_for_pointer<W, L>(hovered: Option<(W, ActivationResult<L>)>) -> (plan: RoutePlan<W, L>)
    ensures
        match hovered {
            Some((target, ActivationResult::Activated(lease))) => plan == (RoutePlan {
                route: Route::Background { target, lease },
                settle_ms: BACKGROUND_ACTIVATION_SETTLE_MS,
            }),
            _ => plan.route is Focused && plan.settle_ms == 0,
        },
{
    match hovered {
        None => RoutePlan { route: Route::Focused, settle_ms: 0 },
        Some((target, activation)) => match activation {
            ActivationResult::AlreadyFrontmost => RoutePlan { route: Route::Focused, settle_ms: 0 },
            ActivationResult::Activated(lease) => RoutePlan {
                route: Route::Background { target, lease },
                settle_ms: BACKGROUND_ACTIVATION_SETTLE_MS,
            },
            ActivationResult::Unavailable => RoutePlan { route: Route::Focused, settle_ms: 0 },
        },
    }
}

/// How long to wait before the lease of a route is given back; none for a route
/// without one.
pub fn finish_route<W, L>(route: &Route<W, L>) -> (settle_ms: Option<u64>)
    ensures
        settle_ms == match route {
            Route::Focused => None::<u64>,
            Route::Background { .. } => Some(BACKGROUND_RESTORE_SETTLE_MS),
        },
{
    match route {
        Route::Focused => None,
        Route::Background { .. } => Some(BACKGROUND_RESTORE_SETTLE_MS),
    }
}

/// The fields of an event.
#[derive(Debug, Clone, Copy, PartialEq, Eq, Structural)]
pub struct EventFields<A> {
    pub event_type: u32,
    /// The value of [`FIELD_HID_TYPE`].
    pub hid_type: i64,
    /// The value of [`FIELD_PHASE`].
    pub phase: i64,
    /// The value of [`FIELD_MAGNIFICATION`].
    pub magnification: Amount<A>,
}

/// The fields of an event of a phase.
pub fn event_fields<A>(phase: GesturePhase, amount: Amount<A>) -> (fields: EventFields<A>)
    ensures
        fields.event_type == GESTURE_EVENT,
        fields.hid_type == HID_ZOOM,
        fields.phase == match phase {
            GesturePhase::Began => 1i64,
            GesturePhase::Changed => 2i64,
            GesturePhase::Ended => 4i64,
        },
        fields.magnification == amount,
{
    EventFields {
        event_type: GESTURE_EVENT,
        hid_type: HID_ZOOM,
        phase: phase.bits(),
        magnification: amount,
    }
}

/// How an event is delivered.
#[derive(Debug, Clone, Copy, PartialEq, Eq, Structural)]
pub enum Delivery<P> {
    /// Through the common tap, to the application in front.
    CommonTap,
    /// To a process, with the place of the pointer on the screen and in the
    /// window.
    Process { pid: i32, screen_point: P, window_point: P },
}

/// How an event is delivered at first: over a background route to the process
/// of its window, and otherwise through the common tap. An event that could not
/// be made is not delivered.
pub open spec fn first_delivery<P, L>(
    created: bool,
    route: Route<HoveredWindow<P>, L>,
) -> Option<Delivery<P>> {
    if !created {
        None
    } else {
        match route {
            Route::Focused => Some(Delivery::CommonTap),
            Route::Background { target, .. } => Some(
                Delivery::Process {
                    pid: target.pid,
                    screen_point: target.screen_point,
                    window_point: target.window_point,
                },
            ),
        }
    }
}

/// What is left to do once a delivery was tried.
pub open spec fn second_delivery<P>(first: Delivery<P>, sent: bool) -> Option<Delivery<P>> {
    if first is Process && !sent {
        Some(Delivery::CommonTap)
    } else {
        None
    }
}

/// How an event is delivered over a route at first.
pub fn delivery<P: Copy, L>(created: bool, route: &Route<HoveredWindow<P>, L>) -> (delivery: Option<
    Delivery<P>,
>)
    ensures
        delivery == first_delivery(created, *route),
{
    if !created {
        return None;
    }
    match route {
        Route::Focused => Some(Delivery::CommonTap),
        Route::Background { target, .. } => Some(
            Delivery::Process {
                pid: target.pid,
                screen_point: target.screen_point,
                window_point: target.window_point,
            },
        ),
    }
}

/// What is left to do once a delivery was tried: an event that could not be
/// sent to its process goes through the common tap, where the activated
/// application picks it up.
pub fn after_delivery<P>(first: &Delivery<P>, sent: bool) -> (again: Option<Delivery<P>>)
    ensures
        again == second_delivery(*first, sent),
{
    match first {
        Delivery::CommonTap => None,
        Delivery::Process { .. } => if sent {
            None
        } else {
            Some(Delivery::CommonTap)
        },
    }
}

/// The ways by which an event gets through, if sending to the process of a
/// window does what `sent` says and the common tap always takes an event.
pub open spec fn deliveries<P, L>(
    created: bool,
    route: Route<HoveredWindow<P>, L>,
    sent: bool,
) -> Seq<Delivery<P>> {
    match first_delivery(created, route) {
        None => Seq::empty(),
        Some(first) => {
            let through = if first is CommonTap || sent {
                seq![first]
            } else {
                Seq::empty()
            };
            match second_delivery(first, sent) {
                None => through,
                Some(second) => through.push(second),
            }
        },
    }
}

/// An event that was made gets through exactly once: to the process of its
/// window with both places of the pointer where that can be done, and otherwise
/// through the common tap.
pub proof fn an_event_gets_through_once<P, L>(
    created: bool,
    route: Route<HoveredWindow<P>, L>,
    sent: bool,
)
    ensures
        !created ==> deliveries(created, route, sent).len() == 0,
        created && (route is Focused || !sent) ==> deliveries(created, route, sent) == seq![
            Delivery::<P>::CommonTap,
        ],
        created && sent && route is Background ==> deliveries(created, route, sent) == seq![
            Delivery::Process {
                pid: route->target.pid,
                screen_point: route->target.screen_point,
                window_point: route->target.window_point,
            },
        ],
{
    assert(Seq::<Delivery<P>>::empty().push(Delivery::CommonTap) =~= seq![
        Delivery::<P>::CommonTap,
    ]);
}

} // verus!
