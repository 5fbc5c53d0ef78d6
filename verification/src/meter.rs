//! The level-meter task: what is sent to the meter's listener, and when the task waits, reads
//! or ends.
//!
//! The task ticks about thirty times a second. On a tick with a listener it reads the two
//! channel levels and sends them to that listener if either is audible; on a tick without one it
//! waits until a listener registers, and ends if none ever can.
use vstd::prelude::*;

use crate::level::audible;

verus! {

/// Milliseconds between two ticks of the task, about thirty frames a second.
pub const TICK_MILLIS: u64 = 33;

/// The bytes of a 32-bit word, the least significant first.
pub open spec fn le_bytes(word: u32) -> Seq<u8> {
    seq![
        (word % 0x100) as u8,
        (word / 0x100 % 0x100) as u8,
        (word / 0x1_0000 % 0x100) as u8,
        (word / 0x100_0000) as u8,
    ]
}

/// The word whose bytes, least significant first, stand in `bytes` from `at` on.
pub open spec fn read_le(bytes: Seq<u8>, at: int) -> int {
    bytes[at] + 0x100 * bytes[at + 1] + 0x1_0000 * bytes[at + 2] + 0x100_0000 * bytes[at + 3]
}

/// The frame for a pair of levels: the left one's bytes, then the right one's.
pub open spec fn frame_of(left: u32, right: u32) -> Seq<u8> {
    le_bytes(left) + le_bytes(right)
}

/// Whether a pair of levels is shown: one audible channel is enough.
pub open spec fn is_shown(left: u32, right: u32) -> bool {
    crate::level::is_audible(left) || crate::level::is_audible(right)
}

/// A frame holds eight bytes, from which both levels can be read back.
pub proof fn frame_gives_back_the_levels(left: u32, right: u32)
    ensures
        frame_of(left, right).len() == 8,
        read_le(frame_of(left, right), 0) == left,
        read_le(frame_of(left, right), 4) == right,
{
}

/// A pair of levels is shown exactly if one of the two patterns lies above that of 0.001 and is a
/// number: an audible left level is enough, whatever the right one is, and the other way round.
pub proof fn shown_pairs(left: u32, right: u32)
    ensures
        is_shown(left, right) <==> 0x3A83_126F < left <= 0x7F80_0000 || 0x3A83_126F < right
            <= 0x7F80_0000,
{
    crate::level::audible_patterns(left);
    crate::level::audible_patterns(right);
}

/// Neither exchanging the channels nor turning one of them up hides a pair that is shown, and the
/// same level on both channels is shown exactly if it is shown beside silence.
pub proof fn louder_pairs_stay_shown(left: u32, right: u32, louder: u32)
    ensures
        is_shown(left, right) <==> is_shown(right, left),
        is_shown(left, right) && left <= louder <= 0x7F80_0000 ==> is_shown(louder, right),
        is_shown(left, left) <==> is_shown(left, 0),
{
    shown_pairs(left, right);
    shown_pairs(right, left);
    shown_pairs(louder, right);
    shown_pairs(left, left);
    shown_pairs(left, 0);
}

/// A frame spells both levels out, the left one first, each with its least significant byte first.
pub proof fn frame_spells_the_levels(left: u32, right: u32)
    ensures
        frame_of(left, right).len() == 8,
        left == frame_of(left, right)[0] + 0x100 * frame_of(left, right)[1] + 0x1_0000 * frame_of(
            left,
            right,
        )[2] + 0x100_0000 * frame_of(left, right)[3],
        right == frame_of(left, right)[4] + 0x100 * frame_of(left, right)[5] + 0x1_0000 * frame_of(
            left,
            right,
        )[6] + 0x100_0000 * frame_of(left, right)[7],
{
}

fn push_le(bytes: &mut Vec<u8>, word: u32)
    ensures
        final(bytes)@ == old(bytes)@ + le_bytes(word),
{
    bytes.push((word % 0x100) as u8);
    bytes.push((word / 0x100 % 0x100) as u8);
    bytes.push((word / 0x1_0000 % 0x100) as u8);
    bytes.push((word / 0x100_0000) as u8);
}

/// The frame to send for a pair of levels, if the pair is shown.
pub fn level_frame(left: u32, right: u32) -> (r: Option<Vec<u8>>)
    ensures
        r is Some <==> is_shown(left, right),
        r matches Some(frame) ==> frame@ == frame_of(left, right),
        r is Some <==> 0x3A83_126F < left <= 0x7F80_0000 || 0x3A83_126F < right <= 0x7F80_0000,
        r matches Some(frame) ==> frame@.len() == 8 && left == frame@[0] + 0x100 * frame@[1]
            + 0x1_0000 * frame@[2] + 0x100_0000 * frame@[3] && right == frame@[4] + 0x100
            * frame@[5] + 0x1_0000 * frame@[6] + 0x100_0000 * frame@[7],
{
    proof {
        shown_pairs(left, right);
        frame_spells_the_levels(left, right);
    }
    if audible(left) || audible(right) {
        let mut frame: Vec<u8> = Vec::new();
        push_le(&mut frame, left);
        push_le(&mut frame, right);
        Some(frame)
    } else {
        None
    }
}

/// What the task is waiting for. `L` is a listener.
#[derive(Debug, PartialEq, Eq)]
pub enum MeterState<L> {
    /// For the next tick.
    Tick,
    /// For the current levels, for this listener.
    Levels(L),
    /// For a listener to register.
    Listener,
    /// For nothing: it has ended.
    Ended,
}

/// What the task is told.
#[derive(Debug, PartialEq, Eq)]
pub enum MeterEvent<L> {
    /// A tick has come, and found this listener, if any.
    Tick { listener: Option<L> },
    /// The bit patterns of the current levels.
    Levels { left: u32, right: u32 },
    /// A listener has registered.
    Registered,
    /// No listener can register any more.
    Closed,
}

/// A frame to send, and the listener to send it to.
#[derive(Debug, PartialEq, Eq)]
pub struct MeterFrame<L> {
    pub listener: L,
    pub bytes: Vec<u8>,
}

impl<L> MeterState<L> {
    /// The task can be told `event` in this state.
    pub open spec fn awaits(self, event: MeterEvent<L>) -> bool {
        match event {
            MeterEvent::Tick { .. } => self is Tick,
            MeterEvent::Levels { .. } => self is Levels,
            MeterEvent::Registered | MeterEvent::Closed => self is Listener,
        }
    }

    /// The state in which a task starts: it has nothing to do where levels are not measured.
    pub open spec fn initial(measured: bool) -> MeterState<L> {
        if measured {
            MeterState::Tick
        } else {
            MeterState::Ended
        }
    }

    /// The state after an event.
    pub open spec fn after(event: MeterEvent<L>) -> MeterState<L> {
        match event {
            MeterEvent::Tick { listener: Some(listener) } => MeterState::Levels(listener),
            MeterEvent::Tick { listener: None } => MeterState::Listener,
            MeterEvent::Levels { .. } => MeterState::Tick,
            MeterEvent::Registered => MeterState::Tick,
            MeterEvent::Closed => MeterState::Ended,
        }
    }

    /// The frame that is sent in answer to an event, and the listener it is sent to.
    pub open spec fn sent_for(self, event: MeterEvent<L>) -> Option<(L, Seq<u8>)> {
        match (self, event) {
            (MeterState::Levels(listener), MeterEvent::Levels { left, right }) if is_shown(
                left,
                right,
            ) => Some((listener, frame_of(left, right))),
            _ => None,
        }
    }

    /// Starts the task. `measured` says whether the backend measures levels.
    pub fn start(measured: bool) -> (state: MeterState<L>)
        ensures
            state == MeterState::<L>::initial(measured),
            measured ==> state is Tick,
            !measured ==> state is Ended,
    {
        if measured {
            MeterState::Tick
        } else {
            MeterState::Ended
        }
    }

    /// Whether [`MeterState::step`] takes `event` in this state.
    pub fn accepts(&self, event: &MeterEvent<L>) -> (r: bool)
        ensures
            r == self.awaits(*event),
            event is Tick ==> r == (self is Tick),
            event is Levels ==> r == (self is Levels),
            event is Registered || event is Closed ==> r == (self is Listener),
    {
        match event {
            MeterEvent::Tick { .. } => matches!(self, MeterState::Tick),
            MeterEvent::Levels { .. } => matches!(self, MeterState::Levels(_)),
            MeterEvent::Registered => matches!(self, MeterState::Listener),
            MeterEvent::Closed => matches!(self, MeterState::Listener),
        }
    }

    /// Takes an event that the task awaits: the state it is in then, and the frame to send
    /// before it waits again, if any.
    pub fn step(self, event: MeterEvent<L>) -> (r: (MeterState<L>, Option<MeterFrame<L>>))
        requires
            self.awaits(event),
        ensures
            r.0 == MeterState::after(event),
            r.1 is Some <==> self.sent_for(event) is Some,
            r.1 matches Some(frame) ==> Some((frame.listener, frame.bytes@)) == self.sent_for(
                event,
            ),
            event matches MeterEvent::Tick { listener: Some(listener) } ==> r.0
                == MeterState::Levels(listener),
            event matches MeterEvent::Tick { listener: None } ==> r.0 is Listener,
            event is Levels || event is Registered ==> r.0 is Tick,
            event is Closed ==> r.0 is Ended,
            r.1 is Some ==> event is Levels,
            event matches MeterEvent::Levels { left, right } ==> (r.1 is Some <==> 0x3A83_126F
                < left <= 0x7F80_0000 || 0x3A83_126F < right <= 0x7F80_0000),
            event matches MeterEvent::Levels { left, right } ==> (r.1 matches Some(frame) ==> self
                == MeterState::Levels(frame.listener) && frame.bytes@.len() == 8 && left
                == frame.bytes@[0] + 0x100 * frame.bytes@[1] + 0x1_0000 * frame.bytes@[2]
                + 0x100_0000 * frame.bytes@[3] && right == frame.bytes@[4] + 0x100
                * frame.bytes@[5] + 0x1_0000 * frame.bytes@[6] + 0x100_0000 * frame.bytes@[7]),
    {
        match event {
            MeterEvent::Tick { listener } => match listener {
                Some(listener) => (MeterState::Levels(listener), None),
                None => (MeterState::Listener, None),
            },
            MeterEvent::Levels { left, right } => match (self, level_frame(left, right)) {
                (MeterState::Levels(listener), Some(bytes)) => (
                    MeterState::Tick,
                    Some(MeterFrame { listener, bytes }),
                ),
                _ => (MeterState::Tick, None),
            },
            MeterEvent::Registered => (MeterState::Tick, None),
            MeterEvent::Closed => (MeterState::Ended, None),
        }
    }
}

/// The state after a task that started with `measured` has taken `events`.
pub open spec fn state_after<L>(measured: bool, events: Seq<MeterEvent<L>>) -> MeterState<L> {
    if events.len() == 0 {
        MeterState::initial(measured)
    } else {
        MeterState::after(events.last())
    }
}

/// `events` is a run of a task: each event comes when the task awaits it.
pub open spec fn is_run<L>(measured: bool, events: Seq<MeterEvent<L>>) -> bool {
    forall|i: int|
        0 <= i < events.len() ==> state_after(measured, events.take(i)).awaits(#[trigger] events[i])
}

/// The frame that is sent in answer to the event at `i`, and the listener it is sent to.
pub open spec fn sent_at<L>(measured: bool, events: Seq<MeterEvent<L>>, i: int) -> Option<
    (L, Seq<u8>),
> {
    state_after(measured, events.take(i)).sent_for(events[i])
}

/// The frames sent during `events`, in order, each with its listener.
pub open spec fn frames_sent<L>(measured: bool, events: Seq<MeterEvent<L>>) -> Seq<(L, Seq<u8>)>
    decreases events.len(),
{
    if events.len() == 0 {
        Seq::empty()
    } else {
        let before = frames_sent(measured, events.drop_last());
        match sent_at(measured, events, events.len() - 1) {
            Some(frame) => before.push(frame),
            None => before,
        }
    }
}

/// The number of ticks in `events`.
pub open spec fn ticks<L>(events: Seq<MeterEvent<L>>) -> nat
    decreases events.len(),
{
    if events.len() == 0 {
        0
    } else {
        ticks(events.drop_last()) + if events.last() is Tick {
            1nat
        } else {
            0nat
        }
    }
}

/// The number of ticks in `events` that found a listener.
pub open spec fn ticks_heard<L>(events: Seq<MeterEvent<L>>) -> nat
    decreases events.len(),
{
    if events.len() == 0 {
        0
    } else {
        ticks_heard(events.drop_last()) + if events.last() is Tick && events.last()->listener is Some {
            1nat
        } else {
            0nat
        }
    }
}

/// Levels are read only on a tick that found a listener, so they are never read without one.
pub proof fn levels_follow_a_heard_tick<L>(measured: bool, events: Seq<MeterEvent<L>>, i: int)
    requires
        is_run(measured, events),
        0 <= i < events.len(),
        events[i] is Levels,
    ensures
        i > 0,
        events[i - 1] is Tick,
        events[i - 1]->listener is Some,
{
    assert(state_after(measured, events.take(i)).awaits(events[i]));
    if i > 0 {
        assert(events.take(i).last() == events[i - 1]);
    }
}

/// A frame goes to the listener that the tick right before it found, and to no other. It holds
/// the levels that were read on that tick.
pub proof fn frames_go_to_the_listener_of_their_tick<L>(
    measured: bool,
    events: Seq<MeterEvent<L>>,
    i: int,
)
    requires
        is_run(measured, events),
        0 <= i < events.len(),
        sent_at(measured, events, i) is Some,
    ensures
        i > 0,
        events[i - 1] == (MeterEvent::Tick { listener: Some((sent_at(measured, events, i)->Some_0).0) }),
        events[i] is Levels,
        (sent_at(measured, events, i)->Some_0).1 == frame_of(events[i]->left, events[i]->right),
{
    levels_follow_a_heard_tick(measured, events, i);
    assert(events.take(i).last() == events[i - 1]);
}

/// Once every tick finds either no listener or `current`, every frame goes to `current`: a
/// listener that was replaced gets no more of them.
pub proof fn frames_go_to_the_current_listener<L>(
    measured: bool,
    events: Seq<MeterEvent<L>>,
    from: int,
    current: L,
    i: int,
)
    requires
        is_run(measured, events),
        0 <= from < i < events.len(),
        forall|j: int|
            from <= j < events.len() && #[trigger] events[j] is Tick ==> events[j]->listener is None
                || events[j]->listener == Some(current),
    ensures
        sent_at(measured, events, i) matches Some(sent) ==> sent.0 == current,
{
    if sent_at(measured, events, i) is Some {
        frames_go_to_the_listener_of_their_tick(measured, events, i);
        assert(events[i - 1] is Tick);
    }
}

/// As long as no tick finds a listener, no frame is sent.
pub proof fn no_frame_without_a_listener<L>(
    measured: bool,
    events: Seq<MeterEvent<L>>,
    from: int,
    i: int,
)
    requires
        is_run(measured, events),
        0 <= from < i < events.len(),
        forall|j: int|
            from <= j < events.len() && #[trigger] events[j] is Tick ==> events[j]->listener is None,
    ensures
        sent_at(measured, events, i) is None,
{
    if sent_at(measured, events, i) is Some {
        frames_go_to_the_listener_of_their_tick(measured, events, i);
        assert(events[i - 1] is Tick);
    }
}

/// While ticks find a listener, every pair of levels that is shown is sent, to that listener.
pub proof fn shown_levels_are_sent<L>(measured: bool, events: Seq<MeterEvent<L>>, i: int)
    requires
        is_run(measured, events),
        0 < i < events.len(),
        events[i] is Levels,
        is_shown(events[i]->left, events[i]->right),
    ensures
        events[i - 1] is Tick,
        sent_at(measured, events, i) == Some(
            (events[i - 1]->listener->0, frame_of(events[i]->left, events[i]->right)),
        ),
{
    levels_follow_a_heard_tick(measured, events, i);
    assert(events.take(i).last() == events[i - 1]);
}

/// A task that found a listener on a tick sends that listener a frame of the levels that it reads
/// next, exactly if one of them is audible, and waits for the next tick in any case.
pub proof fn audible_levels_reach_the_listener<L>(
    measured: bool,
    events: Seq<MeterEvent<L>>,
    listener: L,
    left: u32,
    right: u32,
)
    requires
        is_run(measured, events),
        events.len() > 0,
        events.last() == (MeterEvent::Tick { listener: Some(listener) }),
    ensures
        is_run(measured, events.push(MeterEvent::Levels { left, right })),
        state_after(measured, events.push(MeterEvent::Levels { left, right })) is Tick,
        sent_at(
            measured,
            events.push(MeterEvent::Levels { left, right }),
            events.len() as int,
        ) is Some <==> 0x3A83_126F < left <= 0x7F80_0000 || 0x3A83_126F < right <= 0x7F80_0000,
        sent_at(
            measured,
            events.push(MeterEvent::Levels { left, right }),
            events.len() as int,
        ) matches Some(sent) ==> sent.0 == listener && sent.1 == frame_of(left, right),
{
    let next = MeterEvent::<L>::Levels { left, right };
    let longer = events.push(next);
    shown_pairs(left, right);
    assert(longer.take(events.len() as int) =~= events);
    assert forall|i: int| 0 <= i < longer.len() implies state_after(
        measured,
        longer.take(i),
    ).awaits(#[trigger] longer[i]) by {
        if i < events.len() {
            assert(longer.take(i) =~= events.take(i));
            assert(longer[i] == events[i]);
        }
    }
}

/// A task ends exactly when it waits for a listener and none can register any more; once it has
/// ended it takes no further event. Where levels are not measured it takes none at all.
pub proof fn ends_only_without_listeners<L>(measured: bool, events: Seq<MeterEvent<L>>)
    requires
        is_run(measured, events),
    ensures
        !measured ==> events.len() == 0,
        measured ==> (state_after(measured, events) is Ended <==> events.len() > 0
            && events.last() is Closed),
        forall|i: int|
            0 <= i < events.len() && #[trigger] events[i] is Closed ==> i == events.len() - 1 && i > 0
                && events[i - 1] == (MeterEvent::<L>::Tick { listener: None }),
{
    if events.len() > 0 {
        assert(state_after(measured, events.take(0)).awaits(events[0]));
    }
    assert forall|i: int| 0 <= i < events.len() && #[trigger] events[i] is Closed implies i
        == events.len() - 1 && i > 0 && events[i - 1] == (MeterEvent::<L>::Tick {
        listener: None,
    }) by {
        assert(state_after(measured, events.take(i)).awaits(events[i]));
        if i > 0 {
            assert(events.take(i).last() == events[i - 1]);
        }
        if i + 1 < events.len() {
            assert(state_after(measured, events.take(i + 1)).awaits(events[i + 1]));
            assert(events.take(i + 1).last() == events[i]);
        }
    }
}

/// A task sends at most one frame for each tick that found a listener.
pub proof fn at_most_one_frame_a_tick<L>(measured: bool, events: Seq<MeterEvent<L>>)
    requires
        is_run(measured, events),
    ensures
        frames_sent(measured, events).len() <= ticks_heard(events) <= ticks(events),
{
    lemma_frames_bounded(measured, events);
}

proof fn lemma_frames_bounded<L>(measured: bool, events: Seq<MeterEvent<L>>)
    requires
        is_run(measured, events),
    ensures
        frames_sent(measured, events).len() + (if state_after(measured, events) is Levels {
            1nat
        } else {
            0nat
        }) <= ticks_heard(events),
        ticks_heard(events) <= ticks(events),
    decreases events.len(),
{
    if events.len() > 0 {
        let before = events.drop_last();
        assert(is_run(measured, before)) by {
            assert forall|i: int| 0 <= i < before.len() implies state_after(
                measured,
                before.take(i),
            ).awaits(#[trigger] before[i]) by {
                assert(before.take(i) == events.take(i));
                assert(before[i] == events[i]);
            }
        }
        lemma_frames_bounded(measured, before);
        assert(before == events.take(events.len() - 1));
        assert(state_after(measured, before).awaits(events[events.len() - 1]));
    }
}

/// A task whose ticks lie at least [`TICK_MILLIS`] apart sends about thirty frames a second at
/// most: `elapsed` milliseconds after its first tick it has sent at most one frame more than
/// that time holds ticks. `at` gives the millisecond of each event.
pub proof fn frame_rate_is_bounded<L>(
    measured: bool,
    events: Seq<MeterEvent<L>>,
    at: spec_fn(int) -> int,
    first: int,
    elapsed: int,
)
    requires
        is_run(measured, events),
        0 <= elapsed,
        forall|i: int|
            0 <= i < events.len() && #[trigger] events[i] is Tick ==> first <= at(i) <= first
                + elapsed,
        forall|i: int, j: int|
            0 <= i < j < events.len() && #[trigger] events[i] is Tick && #[trigger] events[j] is Tick
                ==> at(j) - at(i) >= TICK_MILLIS,
    ensures
        frames_sent(measured, events).len() <= 1 + elapsed / (TICK_MILLIS as int),
{
    lemma_frames_bounded(measured, events);
    if ticks(events) > 0 {
        let last = lemma_last_tick(events, at, first);
        assert(TICK_MILLIS * (ticks(events) - 1) <= elapsed);
    }
}

/// The last of some ticks that lie apart comes late enough for all of them to fit before it.
proof fn lemma_last_tick<L>(events: Seq<MeterEvent<L>>, at: spec_fn(int) -> int, first: int) -> (last:
    int)
    requires
        ticks(events) > 0,
        forall|i: int| 0 <= i < events.len() && #[trigger] events[i] is Tick ==> first <= at(i),
        forall|i: int, j: int|
            0 <= i < j < events.len() && #[trigger] events[i] is Tick && #[trigger] events[j] is Tick
                ==> at(j) - at(i) >= TICK_MILLIS,
    ensures
        0 <= last < events.len(),
        events[last] is Tick,
        at(last) >= first + TICK_MILLIS * (ticks(events) - 1),
    decreases events.len(),
{
    let before = events.drop_last();
    let end = events.len() - 1;
    if ticks(before) > 0 {
        let last = lemma_last_tick(before, at, first);
        if events.last() is Tick {
            assert(events[last] is Tick && events[end] is Tick);
            end
        } else {
            last
        }
    } else {
        end
    }
}

} // verus!
