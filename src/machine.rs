//! The shot-detection state machine.
//!
//! The machine decides; the program around it acts. Each step takes the
//! event that the last action produced (a sensor reading or the end of a
//! wait, with the clock read just after it) and returns the next action.
use vstd::prelude::*;
use crate::ranging::{Timeout, reading_cm, reading_or_far};
use crate::scoreboard::{
    BoardState, Scoreboard, ShotResult, after_publish, after_record, earns_point,
};

verus! {

/// An approach reading strictly below this distance opens a shot window.
pub const APPROACH_THRESHOLD_CM: u16 = 50;

/// A ring reading strictly below this distance is a detection.
pub const RING_THRESHOLD_CM: u16 = 60;

/// A detection earlier than this, after the window opened, is `Perfect`.
pub const PERFECT_LIMIT_US: u64 = 2000000;

/// Length of the shot window.
pub const SHOT_WINDOW_US: u64 = 3000000;

/// Interval between two polls of the ring sensors.
pub const RING_POLL_US: u64 = 50000;

/// Interval between two polls of the approach sensor.
pub const APPROACH_POLL_US: u64 = 100000;

/// How long an outcome stays published.
pub const DWELL_US: u64 = 2000000;

/// Pause after the outcome is withdrawn, before the approach check resumes.
pub const COOLDOWN_US: u64 = 1000000;

/// Where the machine stands, and so which event it waits for.
#[derive(Clone, Copy, Debug, PartialEq, Eq, Structural)]
pub enum Phase {
    /// Idle: waiting for an approach reading.
    AwaitApproach,
    /// Idle: waiting out the pause between two approach readings.
    Resting,
    /// Window open since `start_us`: waiting for the ring readings.
    WindowRings { start_us: u64 },
    /// Window open since `start_us`: waiting out the pause between two polls.
    WindowPause { start_us: u64 },
    /// An outcome is published: waiting out the dwell time.
    Dwell,
    /// The outcome was withdrawn: waiting out the cooldown.
    Cooldown,
}

/// What the program around the machine does next.
#[derive(Clone, Copy, Debug, PartialEq, Eq, Structural)]
pub enum Action {
    /// Range the approach sensor, then report `Event::Approach`.
    ReadApproach,
    /// Range the three ring sensors, then report `Event::Rings`.
    ReadRings,
    /// Wait this many microseconds, then report `Event::Woke`.
    Sleep(u64),
}

/// What the last action produced, with the clock read right after it.
#[derive(Clone, Copy, Debug)]
pub enum Event {
    Approach { reading: Result<u16, Timeout>, now_us: u64 },
    Rings {
        first: Result<u16, Timeout>,
        second: Result<u16, Timeout>,
        third: Result<u16, Timeout>,
        now_us: u64,
    },
    Woke { now_us: u64 },
}

/// Whether an approach reading opens a shot window; a timeout never does.
pub open spec fn approach_detects(r: Result<u16, Timeout>) -> bool {
    r matches Ok(d) && d < APPROACH_THRESHOLD_CM
}

/// Whether any of three ring readings is a detection.
pub open spec fn rings_detect(
    a: Result<u16, Timeout>,
    b: Result<u16, Timeout>,
    c: Result<u16, Timeout>,
) -> bool {
    reading_cm(a) < RING_THRESHOLD_CM || reading_cm(b) < RING_THRESHOLD_CM || reading_cm(c)
        < RING_THRESHOLD_CM
}

/// The outcome of a detection `elapsed` microseconds after the window opened.
pub open spec fn detection_outcome(elapsed: int) -> ShotResult {
    if elapsed < PERFECT_LIMIT_US as int {
        ShotResult::Perfect
    } else {
        ShotResult::Good
    }
}

/// The action a phase waits on.
pub open spec fn awaited(p: Phase) -> Action {
    match p {
        Phase::AwaitApproach => Action::ReadApproach,
        Phase::Resting => Action::Sleep(APPROACH_POLL_US),
        Phase::WindowRings { .. } => Action::ReadRings,
        Phase::WindowPause { .. } => Action::Sleep(RING_POLL_US),
        Phase::Dwell => Action::Sleep(DWELL_US),
        Phase::Cooldown => Action::Sleep(COOLDOWN_US),
    }
}

/// The clock does not run backwards: an event that the open window reads
/// the elapsed time from carries an instant no earlier than its start.
pub open spec fn clock_ok(p: Phase, e: Event) -> bool {
    match (p, e) {
        (Phase::WindowRings { start_us }, Event::Rings { now_us, .. }) => now_us >= start_us,
        (Phase::WindowPause { start_us }, Event::Woke { now_us }) => now_us >= start_us,
        _ => true,
    }
}

/// One transition: the next phase, the board after it, and the next action.
/// An event that the phase does not wait for changes nothing and asks for
/// the awaited action again.
pub open spec fn next(p: Phase, b: BoardState, e: Event) -> (Phase, BoardState, Action) {
    match (p, e) {
        (Phase::AwaitApproach, Event::Approach { reading, now_us }) => {
            if approach_detects(reading) {
                (Phase::WindowRings { start_us: now_us }, b, Action::ReadRings)
            } else {
                (Phase::Resting, b, Action::Sleep(APPROACH_POLL_US))
            }
        },
        (Phase::Resting, Event::Woke { .. }) => (Phase::AwaitApproach, b, Action::ReadApproach),
        (Phase::WindowRings { start_us }, Event::Rings { first, second, third, now_us }) => {
            if rings_detect(first, second, third) {
                let o = detection_outcome(now_us - start_us);
                (Phase::Dwell, after_publish(after_record(b, o), o), Action::Sleep(DWELL_US))
            } else {
                (Phase::WindowPause { start_us }, b, Action::Sleep(RING_POLL_US))
            }
        },
        (Phase::WindowPause { start_us }, Event::Woke { now_us }) => {
            if now_us - start_us < SHOT_WINDOW_US as int {
                (Phase::WindowRings { start_us }, b, Action::ReadRings)
            } else {
                (Phase::Dwell, after_publish(b, ShotResult::Miss), Action::Sleep(DWELL_US))
            }
        },
        (Phase::Dwell, Event::Woke { .. }) => (
            Phase::Cooldown,
            after_publish(b, ShotResult::Miss),
            Action::Sleep(COOLDOWN_US),
        ),
        (Phase::Cooldown, Event::Woke { .. }) => (Phase::Resting, b, Action::Sleep(APPROACH_POLL_US)),
        _ => (p, b, awaited(p)),
    }
}

/// Whether an approach reading opens a shot window.
pub fn approach_triggers(r: Result<u16, Timeout>) -> (t: bool)
    ensures
        t == approach_detects(r),
{
    match r {
        Ok(d) => d < APPROACH_THRESHOLD_CM,
        Err(_) => false,
    }
}

/// Whether one polling tick of the three ring sensors is a detection.
/// A failed reading counts as the largest distance.
pub fn rings_triggered(
    a: Result<u16, Timeout>,
    b: Result<u16, Timeout>,
    c: Result<u16, Timeout>,
) -> (t: bool)
    ensures
        t == rings_detect(a, b, c),
{
    reading_or_far(a) < RING_THRESHOLD_CM || reading_or_far(b) < RING_THRESHOLD_CM
        || reading_or_far(c) < RING_THRESHOLD_CM
}

/// Classifies a detection made `elapsed_us` microseconds after the window
/// opened: under two seconds is `Perfect`, from two seconds on `Good`.
pub fn classify_detection(elapsed_us: u64) -> (o: ShotResult)
    ensures
        o == detection_outcome(elapsed_us as int),
{
    if elapsed_us < PERFECT_LIMIT_US {
        ShotResult::Perfect
    } else {
        ShotResult::Good
    }
}

/// The shot-detection state machine of the game task.
pub struct ShotMachine {
    phase: Phase,
}

impl View for ShotMachine {
    type V = Phase;

    closed spec fn view(&self) -> Phase {
        self.phase
    }
}

impl ShotMachine {
    /// A machine that is idle and first asks for an approach reading.
    pub fn new() -> (m: ShotMachine)
        ensures
            m@ == Phase::AwaitApproach,
    {
        ShotMachine { phase: Phase::AwaitApproach }
    }

    /// The current phase.
    pub fn phase(&self) -> (p: Phase)
        ensures
            p == self@,
    {
        self.phase
    }

    /// The action the machine waits on in its current phase.
    pub fn pending(&self) -> (a: Action)
        ensures
            a == awaited(self@),
    {
        match self.phase {
            Phase::AwaitApproach => Action::ReadApproach,
            Phase::Resting => Action::Sleep(APPROACH_POLL_US),
            Phase::WindowRings { .. } => Action::ReadRings,
            Phase::WindowPause { .. } => Action::Sleep(RING_POLL_US),
            Phase::Dwell => Action::Sleep(DWELL_US),
            Phase::Cooldown => Action::Sleep(COOLDOWN_US),
        }
    }

    /// Takes one event: moves to the next phase, scores and publishes on
    /// the board as the transition says, and returns the next action.
    pub fn step(&mut self, board: &mut Scoreboard, e: Event) -> (a: Action)
        requires
            clock_ok(old(self)@, e),
        ensures
            (final(self)@, final(board)@, a) == next(old(self)@, old(board)@, e),
    {
        match (self.phase, e) {
            (Phase::AwaitApproach, Event::Approach { reading, now_us }) => {
                if approach_triggers(reading) {
                    self.phase = Phase::WindowRings { start_us: now_us };
                    Action::ReadRings
                } else {
                    self.phase = Phase::Resting;
                    Action::Sleep(APPROACH_POLL_US)
                }
            },
            (Phase::Resting, Event::Woke { .. }) => {
                self.phase = Phase::AwaitApproach;
                Action::ReadApproach
            },
            (Phase::WindowRings { start_us }, Event::Rings { first, second, third, now_us }) => {
                if rings_triggered(first, second, third) {
                    let o = classify_detection(now_us - start_us);
                    board.record(o);
                    board.publish(o);
                    self.phase = Phase::Dwell;
                    Action::Sleep(DWELL_US)
                } else {
                    self.phase = Phase::WindowPause { start_us };
                    Action::Sleep(RING_POLL_US)
                }
            },
            (Phase::WindowPause { start_us }, Event::Woke { now_us }) => {
                if now_us - start_us < SHOT_WINDOW_US {
                    self.phase = Phase::WindowRings { start_us };
                    Action::ReadRings
                } else {
                    board.publish(ShotResult::Miss);
                    self.phase = Phase::Dwell;
                    Action::Sleep(DWELL_US)
                }
            },
            (Phase::Dwell, Event::Woke { .. }) => {
                board.publish(ShotResult::Miss);
                self.phase = Phase::Cooldown;
                Action::Sleep(COOLDOWN_US)
            },
            (Phase::Cooldown, Event::Woke { .. }) => {
                self.phase = Phase::Resting;
                Action::Sleep(APPROACH_POLL_US)
            },
            _ => self.pending(),
        }
    }
}

/// Whether a phase is idle: no shot window is open and no outcome is shown.
pub open spec fn is_idle(p: Phase) -> bool {
    p is AwaitApproach || p is Resting
}

/// The phase and board after the events `es`, taken one after the other.
pub open spec fn run(p: Phase, b: BoardState, es: Seq<Event>) -> (Phase, BoardState)
    decreases es.len(),
{
    if es.len() == 0 {
        (p, b)
    } else {
        let (q, c) = run(p, b, es.drop_last());
        let (r, d, _) = next(q, c, es.last());
        (r, d)
    }
}

/// Whether an event is an approach reading that opens a window.
pub open spec fn opens_window(e: Event) -> bool {
    e matches Event::Approach { reading, .. } && approach_detects(reading)
}

/// A detection is classified `Perfect` exactly when it comes under two
/// seconds after the window opened and `Good` exactly when it comes later;
/// it is never a `Miss`.
pub proof fn lemma_detection_partition(elapsed: int)
    ensures
        (detection_outcome(elapsed) == ShotResult::Perfect) == (elapsed < PERFECT_LIMIT_US as int),
        (detection_outcome(elapsed) == ShotResult::Good) == (elapsed >= PERFECT_LIMIT_US as int),
        detection_outcome(elapsed) != ShotResult::Miss,
{
}

/// How an open window ends. A ring tick with a detection publishes
/// `Perfect` under two seconds and `Good` from two seconds on, and adds a
/// point; a tick without one keeps the window open. Once three seconds have
/// passed with no detection, `Miss` is published and the score stays; before
/// that, the window goes on polling with nothing published.
pub proof fn lemma_window_outcome(start_us: u64, b: BoardState, e: Event)
    requires
        b.score < u32::MAX as nat,
    ensures
        e matches Event::Rings { first, second, third, now_us } ==> {
            let (q, c, _) = next(Phase::WindowRings { start_us }, b, e);
            if rings_detect(first, second, third) {
                &&& q == Phase::Dwell
                &&& c.score == b.score + 1
                &&& (c.shown == ShotResult::Perfect) == (now_us - start_us < PERFECT_LIMIT_US as int)
                &&& (c.shown == ShotResult::Good) == (now_us - start_us >= PERFECT_LIMIT_US as int)
            } else {
                q == (Phase::WindowPause { start_us }) && c == b
            }
        },
        e matches Event::Woke { now_us } ==> {
            let (q, c, _) = next(Phase::WindowPause { start_us }, b, e);
            if now_us - start_us >= SHOT_WINDOW_US as int {
                &&& q == Phase::Dwell
                &&& c.score == b.score
                &&& c.shown == ShotResult::Miss
            } else {
                q == (Phase::WindowRings { start_us }) && c == b
            }
        },
{
}

/// One step adds at most one point, and adds one only when a ring tick of
/// an open window detects the ball, which closes the window: however many
/// ring sensors qualify in that tick, the attempt is scored once.
pub proof fn lemma_step_scores_once(p: Phase, b: BoardState, e: Event)
    ensures
        ({
            let (q, c, _) = next(p, b, e);
            &&& c.score == b.score || c.score == b.score + 1
            &&& c.score == b.score + 1 ==> {
                &&& p is WindowRings
                &&& e matches Event::Rings { first, second, third, .. } && rings_detect(
                    first,
                    second,
                    third,
                )
                &&& q == Phase::Dwell
                &&& earns_point(c.shown)
            }
        }),
{
}

/// While no approach reading opens a window (the approach sensor times out
/// or sees nothing close), an idle machine stays idle and the board is
/// never written.
pub proof fn lemma_idle_without_approach(p: Phase, b: BoardState, es: Seq<Event>)
    requires
        is_idle(p),
        forall|i: int| 0 <= i < es.len() ==> !opens_window(#[trigger] es[i]),
    ensures
        is_idle(run(p, b, es).0),
        run(p, b, es).1 == b,
    decreases es.len(),
{
    if es.len() > 0 {
        let init = es.drop_last();
        assert forall|i: int| 0 <= i < init.len() implies !opens_window(#[trigger] init[i]) by {
            assert(init[i] == es[i]);
        }
        lemma_idle_without_approach(p, b, init);
        assert(!opens_window(es[es.len() - 1]));
    }
}

} // verus!
