//! The trigger/echo ranging protocol of an ultrasonic distance sensor.
use vstd::prelude::*;

verus! {

/// Largest distance a sample can hold, in centimeters; it also stands for
/// "no echo" and is never a close-range reading.
pub const MAX_DISTANCE_CM: u16 = 400;

/// Numerator of the half-trip speed of sound, 0.01715 cm per microsecond.
pub const CM_PER_US_NUM: u64 = 1715;

/// Denominator of the half-trip speed of sound.
pub const CM_PER_US_DEN: u64 = 100000;

/// Shortest echo pulse, in microseconds, whose distance reaches the clamp.
pub const SATURATING_ECHO_US: u64 = 23324;

/// The distance in centimeters of an echo pulse lasting `w` microseconds:
/// `floor(w * 0.01715)`, clamped to 400.
pub open spec fn distance_of(w: nat) -> nat {
    let d = (w * CM_PER_US_NUM as nat) / (CM_PER_US_DEN as nat);
    if d < MAX_DISTANCE_CM as nat { d } else { MAX_DISTANCE_CM as nat }
}

/// Converts an echo pulse width in microseconds to centimeters.
pub fn distance_from_echo_micros(w: u64) -> (d: u16)
    ensures
        d as nat == distance_of(w as nat),
        d <= MAX_DISTANCE_CM,
{
    if w >= SATURATING_ECHO_US {
        assert((w as nat) * 1715 / 100000 >= 400) by (nonlinear_arith)
            requires w >= 23324;
        MAX_DISTANCE_CM
    } else {
        let scaled: u64 = w * CM_PER_US_NUM;
        let d: u64 = scaled / CM_PER_US_DEN;
        assert(d < 400) by (nonlinear_arith)
            requires w < 23324, d == (w * 1715) / 100000;
        d as u16
    }
}

/// Settling time with the trigger line held low before a pulse, in microseconds.
pub const TRIGGER_SETTLE_US: u64 = 2;

/// Width of the trigger pulse that starts a ranging cycle, in microseconds.
pub const TRIGGER_PULSE_US: u64 = 10;

/// Longest wait for each echo transition, in microseconds.
pub const ECHO_TIMEOUT_US: u64 = 30000;

/// Interval between two polls of the echo line, in microseconds.
pub const ECHO_POLL_US: u64 = 1;

/// The one failure of a ranging cycle: an echo edge did not come in time.
#[derive(Clone, Copy, Debug, PartialEq, Eq, Structural)]
pub struct Timeout;

/// Where a ranging cycle stands after its trigger pulse.
#[derive(Clone, Copy, Debug, PartialEq, Eq, Structural)]
pub enum EchoPhase {
    /// Waiting for the echo line to rise; the wait began at `since_us`.
    AwaitRise { since_us: u64 },
    /// Waiting for the echo line to fall; it rose at `rise_us`.
    AwaitFall { rise_us: u64 },
}

/// What to do after one poll of the echo line.
#[derive(Clone, Copy, Debug)]
pub enum EchoStep {
    /// Wait one poll interval and poll again in the given phase.
    Pending(EchoPhase),
    /// The cycle is over, with a distance or a timeout.
    Done(Result<u16, Timeout>),
}

/// The instant at which the current wait of a phase began.
pub open spec fn phase_start(p: EchoPhase) -> u64 {
    match p {
        EchoPhase::AwaitRise { since_us } => since_us,
        EchoPhase::AwaitFall { rise_us } => rise_us,
    }
}

/// The outcome of polling the echo line at `now_us` and reading `echo_high`.
pub open spec fn echo_next(p: EchoPhase, now_us: u64, echo_high: bool) -> EchoStep {
    match p {
        EchoPhase::AwaitRise { since_us } => {
            if echo_high {
                EchoStep::Pending(EchoPhase::AwaitFall { rise_us: now_us })
            } else if now_us - since_us > ECHO_TIMEOUT_US {
                EchoStep::Done(Err(Timeout))
            } else {
                EchoStep::Pending(p)
            }
        },
        EchoPhase::AwaitFall { rise_us } => {
            if !echo_high {
                EchoStep::Done(Ok(distance_of((now_us - rise_us) as nat) as u16))
            } else if now_us - rise_us > ECHO_TIMEOUT_US {
                EchoStep::Done(Err(Timeout))
            } else {
                EchoStep::Pending(p)
            }
        },
    }
}

/// The phase in which a ranging cycle starts, once the trigger pulse has
/// ended at `now_us`.
pub fn echo_start(now_us: u64) -> (p: EchoPhase)
    ensures
        p == (EchoPhase::AwaitRise { since_us: now_us }),
{
    EchoPhase::AwaitRise { since_us: now_us }
}

/// Decides one poll of the echo line.
///
/// A rising edge starts the pulse; a falling edge ends it and yields its
/// distance. A wait for either edge that has lasted more than the timeout
/// ends the cycle with `Timeout`. The clock must not run backwards.
pub fn echo_step(p: EchoPhase, now_us: u64, echo_high: bool) -> (r: EchoStep)
    requires
        now_us >= phase_start(p),
    ensures
        r == echo_next(p, now_us, echo_high),
{
    match p {
        EchoPhase::AwaitRise { since_us } => {
            if echo_high {
                EchoStep::Pending(EchoPhase::AwaitFall { rise_us: now_us })
            } else if now_us - since_us > ECHO_TIMEOUT_US {
                EchoStep::Done(Err(Timeout))
            } else {
                EchoStep::Pending(p)
            }
        },
        EchoPhase::AwaitFall { rise_us } => {
            if !echo_high {
                EchoStep::Done(Ok(distance_from_echo_micros(now_us - rise_us)))
            } else if now_us - rise_us > ECHO_TIMEOUT_US {
                EchoStep::Done(Err(Timeout))
            } else {
                EchoStep::Pending(p)
            }
        },
    }
}

/// No wait is unbounded: a poll that finds the awaited edge still missing
/// more than the timeout after the wait began ends the cycle with `Timeout`,
/// and a cycle that has not ended stays in its phase or moves from waiting
/// for the rise to waiting for the fall.
pub proof fn lemma_echo_wait_bounded(p: EchoPhase, now_us: u64, echo_high: bool)
    requires
        now_us >= phase_start(p),
    ensures
        now_us - phase_start(p) > ECHO_TIMEOUT_US && (p is AwaitRise ==> !echo_high) && (
        p is AwaitFall ==> echo_high) ==> echo_next(p, now_us, echo_high) == EchoStep::Done(
            Err(Timeout),
        ),
        echo_next(p, now_us, echo_high) matches EchoStep::Pending(q) ==> q == p || (
        p is AwaitRise && q == (EchoPhase::AwaitFall { rise_us: now_us })),
        p is AwaitFall && !echo_high ==> echo_next(p, now_us, echo_high) == EchoStep::Done(
            Ok(distance_of((now_us - phase_start(p)) as nat) as u16),
        ),
{
}

/// The distance a reading stands for: a timeout counts as the largest
/// distance, that is, as no detection.
pub open spec fn reading_cm(r: Result<u16, Timeout>) -> u16 {
    match r {
        Ok(d) => d,
        Err(_) => MAX_DISTANCE_CM,
    }
}

/// Folds a failed reading into the "far away" distance.
pub fn reading_or_far(r: Result<u16, Timeout>) -> (d: u16)
    ensures
        d == reading_cm(r),
{
    match r {
        Ok(d) => d,
        Err(_) => MAX_DISTANCE_CM,
    }
}

} // verus!
