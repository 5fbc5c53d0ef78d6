use sbsp::level::{audible, AUDIBLE_FLOOR, POSITIVE_INFINITY};
use sbsp::meter::{level_frame, MeterEvent, MeterFrame, MeterState, TICK_MILLIS};

#[test]
fn floor_is_one_thousandth() {
    assert_eq!(AUDIBLE_FLOOR, 0.001f32.to_bits());
    assert_eq!(POSITIVE_INFINITY, f32::INFINITY.to_bits());
}

#[test]
fn audible_starts_above_the_floor() {
    assert!(!audible(AUDIBLE_FLOOR - 1));
    assert!(!audible(AUDIBLE_FLOOR));
    assert!(audible(AUDIBLE_FLOOR + 1));
    assert!(audible(1.0f32.to_bits()));
    assert!(audible(f32::MAX.to_bits()));
    assert!(audible(f32::INFINITY.to_bits()));
}

#[test]
fn silence_and_nonsense_are_not_audible() {
    assert!(!audible(0.0f32.to_bits()));
    assert!(!audible((-0.0f32).to_bits()));
    assert!(!audible((-1.0f32).to_bits()));
    assert!(!audible(f32::NEG_INFINITY.to_bits()));
    assert!(!audible(f32::NAN.to_bits()));
    assert!(!audible(0xFFFF_FFFF));
    assert!(!audible(f32::MIN_POSITIVE.to_bits()));
}

#[test]
fn audible_agrees_with_float_comparison() {
    let mut bits: u32 = 0;
    loop {
        assert_eq!(audible(bits), f32::from_bits(bits) > 0.001, "{:#x}", bits);
        match bits.checked_add(40_009) {
            Some(next) => bits = next,
            None => break,
        }
    }
}

#[test]
fn no_single_is_nearer_to_a_thousandth_than_the_floor() {
    let distance = |bits: u32| (f32::from_bits(bits) as f64 - 0.001f64).abs();
    assert!(distance(AUDIBLE_FLOOR) < distance(AUDIBLE_FLOOR - 1));
    assert!(distance(AUDIBLE_FLOOR) < distance(AUDIBLE_FLOOR + 1));
}

#[test]
fn frame_holds_left_then_right_in_little_endian() {
    let frame = level_frame(0x3F80_0000, 0x3F00_0001).unwrap();
    assert_eq!(frame, vec![0x00, 0x00, 0x80, 0x3F, 0x01, 0x00, 0x00, 0x3F]);
    let (l, r) = (0.75f32, 0.123_f32);
    let mut expected = l.to_le_bytes().to_vec();
    expected.extend(r.to_le_bytes());
    assert_eq!(level_frame(l.to_bits(), r.to_bits()), Some(expected));
}

#[test]
fn one_audible_channel_is_enough() {
    assert!(level_frame(0.5f32.to_bits(), 0).is_some());
    assert!(level_frame(0, 0.5f32.to_bits()).is_some());
    assert!(level_frame(f32::NAN.to_bits(), 0.5f32.to_bits()).is_some());
    assert!(level_frame(0.001f32.to_bits(), 0.001f32.to_bits()).is_none());
    assert!(level_frame(0, 0).is_none());
}

type State = MeterState<&'static str>;
type Event = MeterEvent<&'static str>;

#[test]
fn meter_reads_sends_and_waits() {
    let state = State::start(true);
    assert_eq!(state, MeterState::Tick);
    let (state, frame) = state.step(MeterEvent::Tick { listener: Some("a") });
    assert_eq!((&state, frame), (&MeterState::Levels("a"), None));
    let (state, frame) = state.step(MeterEvent::Levels { left: 0x3F80_0000, right: 0 });
    assert_eq!(state, MeterState::Tick);
    let bytes = vec![0, 0, 0x80, 0x3F, 0, 0, 0, 0];
    assert_eq!(frame, Some(MeterFrame { listener: "a", bytes }));
    let (state, _) = state.step(MeterEvent::Tick { listener: Some("a") });
    let (state, frame) = state.step(MeterEvent::Levels { left: 0, right: 0 });
    assert_eq!((&state, frame), (&MeterState::Tick, None));
    let (state, frame) = state.step(MeterEvent::Tick { listener: None });
    assert_eq!((&state, frame), (&MeterState::Listener, None));
    let (state, frame) = state.step(MeterEvent::Registered);
    assert_eq!((&state, frame), (&MeterState::Tick, None));
}

#[test]
fn frames_go_to_the_new_listener_after_a_change() {
    let loud = || -> Event { MeterEvent::Levels { left: 0x3F80_0000, right: 0 } };
    let events = vec![
        MeterEvent::Tick { listener: Some("a") },
        loud(),
        MeterEvent::Tick { listener: None },
        MeterEvent::Registered,
        MeterEvent::Tick { listener: Some("b") },
        loud(),
        MeterEvent::Tick { listener: Some("b") },
        loud(),
    ];
    let mut state = State::start(true);
    let mut recipients = vec![];
    for event in events {
        assert!(state.accepts(&event));
        let (next, frame) = state.step(event);
        recipients.push(frame.map(|frame| frame.listener));
        state = next;
    }
    let expected = vec![None, Some("a"), None, None, None, Some("b"), None, Some("b")];
    assert_eq!(recipients, expected);
}

#[test]
fn frames_in_a_second_are_bounded_by_its_ticks() {
    let mut state = State::start(true);
    let mut frames: u64 = 0;
    let mut now: u64 = 0;
    let elapsed = 1000;
    while now <= elapsed {
        state = state.step(MeterEvent::Tick { listener: Some("a") }).0;
        let (next, frame) = state.step(MeterEvent::Levels { left: 0x3F80_0000, right: 0 });
        frames += frame.iter().count() as u64;
        state = next;
        now += TICK_MILLIS;
    }
    assert_eq!(frames, 1 + elapsed / TICK_MILLIS);
}

#[test]
fn meter_ends_when_no_listener_can_come() {
    let (state, _) = State::start(true).step(MeterEvent::Tick { listener: None });
    let (state, frame) = state.step(MeterEvent::Closed);
    assert_eq!((&state, frame), (&MeterState::Ended, None));
    assert!(!state.accepts(&MeterEvent::Tick { listener: Some("a") }));
    assert!(!state.accepts(&MeterEvent::Registered));
}

#[test]
fn meter_without_measured_levels_never_starts() {
    assert_eq!(State::start(false), MeterState::Ended);
}

#[test]
fn meter_accepts_what_it_waits_for() {
    let levels: Event = MeterEvent::Levels { left: 0, right: 0 };
    let tick: Event = MeterEvent::Tick { listener: None };
    assert!(State::Tick.accepts(&tick));
    assert!(!State::Tick.accepts(&levels));
    assert!(!State::Tick.accepts(&MeterEvent::Closed));
    assert!(State::Levels("a").accepts(&levels));
    assert!(!State::Levels("a").accepts(&tick));
    assert!(State::Listener.accepts(&MeterEvent::Registered));
    assert!(State::Listener.accepts(&MeterEvent::Closed));
    assert!(!State::Listener.accepts(&tick));
}

#[test]
fn meter_ticks_about_thirty_times_a_second() {
    assert_eq!(TICK_MILLIS, 33);
    assert_eq!(1000 / TICK_MILLIS, 30);
}
