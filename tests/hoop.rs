use smart_hoop::leds::{channel_levels, dark, outcome_color, startup_color};
use smart_hoop::machine::{
    approach_triggers, classify_detection, rings_triggered, Action, Event, Phase, ShotMachine,
    APPROACH_POLL_US, COOLDOWN_US, DWELL_US, RING_POLL_US,
};
use smart_hoop::ranging::{
    distance_from_echo_micros, echo_start, echo_step, reading_or_far, EchoPhase, EchoStep, Timeout,
};
use smart_hoop::scoreboard::{Scoreboard, ShotResult};

const FAR: Result<u16, Timeout> = Ok(120);

fn rings(first: Result<u16, Timeout>, second: Result<u16, Timeout>, third: Result<u16, Timeout>, now_us: u64) -> Event {
    Event::Rings { first, second, third, now_us }
}

/// Opens a window at `start` with an approach reading of `cm`.
fn open_window(m: &mut ShotMachine, b: &mut Scoreboard, cm: u16, start: u64) {
    assert_eq!(m.pending(), Action::ReadApproach);
    let a = m.step(b, Event::Approach { reading: Ok(cm), now_us: start });
    assert_eq!(a, Action::ReadRings);
    assert_eq!(m.phase(), Phase::WindowRings { start_us: start });
}

/// Polls the rings with nothing close every 50 ms from `start` until `until`.
fn quiet_ticks(m: &mut ShotMachine, b: &mut Scoreboard, start: u64, until: u64) -> u64 {
    let mut t = start;
    while t + RING_POLL_US < until {
        let a = m.step(b, rings(FAR, Err(Timeout), FAR, t));
        assert_eq!(a, Action::Sleep(RING_POLL_US));
        t += RING_POLL_US;
        let a = m.step(b, Event::Woke { now_us: t });
        assert_eq!(a, Action::ReadRings);
    }
    t
}

#[test]
fn distance_conversion_exact_values() {
    assert_eq!(distance_from_echo_micros(0), 0);
    assert_eq!(distance_from_echo_micros(58), 0);
    assert_eq!(distance_from_echo_micros(59), 1);
    assert_eq!(distance_from_echo_micros(1000), 17);
    assert_eq!(distance_from_echo_micros(5831), 100);
    assert_eq!(distance_from_echo_micros(23323), 399);
}

#[test]
fn distance_conversion_clamps_at_saturation() {
    assert_eq!(distance_from_echo_micros(23324), 400);
    assert_eq!(distance_from_echo_micros(30000), 400);
    assert_eq!(distance_from_echo_micros(u64::MAX), 400);
}

#[test]
fn echo_cycle_measures_pulse() {
    let p = echo_start(1000);
    assert_eq!(p, EchoPhase::AwaitRise { since_us: 1000 });
    let p = match echo_step(p, 1200, false) {
        EchoStep::Pending(q) => q,
        other => panic!("unexpected {:?}", other),
    };
    let p = match echo_step(p, 1300, true) {
        EchoStep::Pending(q) => q,
        other => panic!("unexpected {:?}", other),
    };
    assert_eq!(p, EchoPhase::AwaitFall { rise_us: 1300 });
    assert!(matches!(echo_step(p, 2000, true), EchoStep::Pending(q) if q == p));
    assert!(matches!(echo_step(p, 1300 + 5831, false), EchoStep::Done(Ok(100))));
}

#[test]
fn echo_rise_timeout_is_strictly_after_limit() {
    let p = echo_start(0);
    assert!(matches!(echo_step(p, 30000, false), EchoStep::Pending(q) if q == p));
    assert!(matches!(echo_step(p, 30001, false), EchoStep::Done(Err(Timeout))));
}

#[test]
fn echo_fall_timeout() {
    let p = EchoPhase::AwaitFall { rise_us: 500 };
    assert!(matches!(echo_step(p, 30500, true), EchoStep::Pending(_)));
    assert!(matches!(echo_step(p, 30501, true), EchoStep::Done(Err(Timeout))));
}

#[test]
fn failed_reading_counts_as_far() {
    assert_eq!(reading_or_far(Err(Timeout)), 400);
    assert_eq!(reading_or_far(Ok(42)), 42);
}

#[test]
fn approach_and_ring_thresholds() {
    assert!(approach_triggers(Ok(49)));
    assert!(!approach_triggers(Ok(50)));
    assert!(!approach_triggers(Err(Timeout)));
    assert!(rings_triggered(Ok(59), Err(Timeout), Ok(400)));
    assert!(rings_triggered(Err(Timeout), Err(Timeout), Ok(0)));
    assert!(!rings_triggered(Ok(60), Err(Timeout), Ok(400)));
    assert!(!rings_triggered(Err(Timeout), Err(Timeout), Err(Timeout)));
}

#[test]
fn classification_boundaries() {
    assert_eq!(classify_detection(0), ShotResult::Perfect);
    assert_eq!(classify_detection(1_999_999), ShotResult::Perfect);
    assert_eq!(classify_detection(2_000_000), ShotResult::Good);
    assert_eq!(classify_detection(2_999_999), ShotResult::Good);
}

#[test]
fn perfect_shot_ring1_at_1_2s() {
    let mut m = ShotMachine::new();
    let mut b = Scoreboard::new();
    let start = 5_000_000;
    open_window(&mut m, &mut b, 30, start);
    let t = quiet_ticks(&mut m, &mut b, start, start + 1_200_000);
    assert_eq!(t, start + 1_150_000);
    m.step(&mut b, rings(FAR, FAR, FAR, t));
    m.step(&mut b, Event::Woke { now_us: start + 1_200_000 });
    let a = m.step(&mut b, rings(Ok(40), FAR, FAR, start + 1_200_000));
    assert_eq!(a, Action::Sleep(DWELL_US));
    assert_eq!(b.shown(), ShotResult::Perfect);
    assert_eq!(b.score(), 1);
}

#[test]
fn good_shot_ring2_at_2_5s() {
    let mut m = ShotMachine::new();
    let mut b = Scoreboard::new();
    let start = 10;
    open_window(&mut m, &mut b, 45, start);
    quiet_ticks(&mut m, &mut b, start, start + 2_500_000);
    let a = m.step(&mut b, rings(FAR, Ok(55), FAR, start + 2_500_000));
    assert_eq!(a, Action::Sleep(DWELL_US));
    assert_eq!(b.shown(), ShotResult::Good);
    assert_eq!(b.score(), 1);
}

#[test]
fn miss_when_rings_stay_quiet_for_3s() {
    let mut m = ShotMachine::new();
    let mut b = Scoreboard::new();
    let start = 0;
    open_window(&mut m, &mut b, 10, start);
    let t = quiet_ticks(&mut m, &mut b, start, start + 3_000_000);
    m.step(&mut b, rings(FAR, Err(Timeout), FAR, t));
    let a = m.step(&mut b, Event::Woke { now_us: start + 2_999_999 });
    assert_eq!(a, Action::ReadRings);
    m.step(&mut b, rings(Ok(60), Ok(61), Err(Timeout), start + 2_999_999));
    let a = m.step(&mut b, Event::Woke { now_us: start + 3_000_000 });
    assert_eq!(a, Action::Sleep(DWELL_US));
    assert_eq!(m.phase(), Phase::Dwell);
    assert_eq!(b.shown(), ShotResult::Miss);
    assert_eq!(b.score(), 0);
}

#[test]
fn approach_timeouts_keep_machine_idle() {
    let mut m = ShotMachine::new();
    let mut b = Scoreboard::new();
    let mut t: u64 = 0;
    for _ in 0..1000 {
        let a = m.step(&mut b, Event::Approach { reading: Err(Timeout), now_us: t });
        assert_eq!(a, Action::Sleep(APPROACH_POLL_US));
        assert_eq!(m.phase(), Phase::Resting);
        t += APPROACH_POLL_US;
        let a = m.step(&mut b, Event::Woke { now_us: t });
        assert_eq!(a, Action::ReadApproach);
        assert_eq!(m.phase(), Phase::AwaitApproach);
    }
    assert_eq!(b.score(), 0);
    assert_eq!(b.shown(), ShotResult::Miss);
}

#[test]
fn far_approach_reading_keeps_machine_idle() {
    let mut m = ShotMachine::new();
    let mut b = Scoreboard::new();
    let a = m.step(&mut b, Event::Approach { reading: Ok(50), now_us: 7 });
    assert_eq!(a, Action::Sleep(APPROACH_POLL_US));
    assert_eq!(m.phase(), Phase::Resting);
}

#[test]
fn two_rings_in_one_tick_score_once() {
    let mut m = ShotMachine::new();
    let mut b = Scoreboard::new();
    let start = 100;
    open_window(&mut m, &mut b, 20, start);
    quiet_ticks(&mut m, &mut b, start, start + 1_900_000);
    m.step(&mut b, rings(Ok(50), FAR, Ok(45), start + 1_900_000));
    assert_eq!(b.score(), 1);
    assert_eq!(b.shown(), ShotResult::Perfect);
    // Later ring readings belong to no window and change nothing.
    let a = m.step(&mut b, rings(Ok(10), Ok(10), Ok(10), start + 1_950_000));
    assert_eq!(a, Action::Sleep(DWELL_US));
    assert_eq!(b.score(), 1);
}

#[test]
fn outcome_dwells_then_resets_and_cools_down() {
    let mut m = ShotMachine::new();
    let mut b = Scoreboard::new();
    open_window(&mut m, &mut b, 30, 0);
    m.step(&mut b, rings(Ok(5), FAR, FAR, 2_000_000));
    assert_eq!(b.shown(), ShotResult::Good);
    let a = m.step(&mut b, Event::Woke { now_us: 4_000_000 });
    assert_eq!(a, Action::Sleep(COOLDOWN_US));
    assert_eq!(b.shown(), ShotResult::Miss);
    assert_eq!(b.score(), 1);
    let a = m.step(&mut b, Event::Woke { now_us: 5_000_000 });
    assert_eq!(a, Action::Sleep(APPROACH_POLL_US));
    let a = m.step(&mut b, Event::Woke { now_us: 5_100_000 });
    assert_eq!(a, Action::ReadApproach);
    assert_eq!(m.phase(), Phase::AwaitApproach);
}

#[test]
fn unexpected_event_changes_nothing() {
    let mut m = ShotMachine::new();
    let mut b = Scoreboard::new();
    let a = m.step(&mut b, rings(Ok(1), Ok(1), Ok(1), 0));
    assert_eq!(a, Action::ReadApproach);
    assert_eq!(m.phase(), Phase::AwaitApproach);
    assert_eq!(b.score(), 0);
}

#[test]
fn score_counts_non_miss_outcomes() {
    let mut b = Scoreboard::new();
    let outcomes = [
        ShotResult::Miss,
        ShotResult::Good,
        ShotResult::Perfect,
        ShotResult::Miss,
        ShotResult::Perfect,
    ];
    for o in outcomes {
        b.record(o);
    }
    assert_eq!(b.score(), 3);
    assert_eq!(b.shown(), ShotResult::Miss);
}

#[test]
fn repeated_reads_agree() {
    let mut b = Scoreboard::new();
    b.record(ShotResult::Good);
    b.publish(ShotResult::Good);
    assert_eq!(b.score(), b.score());
    assert_eq!(b.shown(), b.shown());
    b.publish(ShotResult::Good);
    assert_eq!(b.shown(), ShotResult::Good);
    assert_eq!(b.score(), 1);
}

#[test]
fn led_colors_and_levels() {
    assert_eq!(outcome_color(ShotResult::Miss), [255, 0, 0]);
    assert_eq!(outcome_color(ShotResult::Good), [0, 0, 255]);
    assert_eq!(outcome_color(ShotResult::Perfect), [0, 255, 0]);
    assert_eq!(startup_color(), [128, 0, 128]);
    assert_eq!(channel_levels(startup_color()), [false, false, false]);
    assert_eq!(channel_levels([129, 128, 255]), [true, false, true]);
    assert_eq!(channel_levels(dark()), [false, false, false]);
    assert_eq!(channel_levels(outcome_color(ShotResult::Good)), [false, false, true]);
}
