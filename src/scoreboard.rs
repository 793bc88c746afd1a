//! The game state shared between the shot state machine and its readers.
use vstd::prelude::*;

verus! {

/// The classification of one shot attempt; `Miss` is also the idle state.
#[derive(Clone, Copy, Debug, PartialEq, Eq, Structural)]
pub enum ShotResult {
    Miss,
    Good,
    Perfect,
}

/// Whether an outcome earns a point.
pub open spec fn earns_point(o: ShotResult) -> bool {
    o !is Miss
}

/// The mathematical content of a scoreboard.
pub struct BoardState {
    pub score: nat,
    pub shown: ShotResult,
}

/// The board after an attempt with outcome `o` was scored: one point more
/// for `Good` or `Perfect`, none for `Miss`. The counter stops at its
/// largest value rather than wrap.
pub open spec fn after_record(b: BoardState, o: ShotResult) -> BoardState {
    BoardState {
        score: if earns_point(o) && b.score < u32::MAX as nat {
            b.score + 1
        } else {
            b.score
        },
        shown: b.shown,
    }
}

/// The board after `o` was made the published outcome.
pub open spec fn after_publish(b: BoardState, o: ShotResult) -> BoardState {
    BoardState { score: b.score, shown: o }
}

/// Score counter and published outcome, written by the shot state machine
/// alone and read by the presentation tasks.
pub struct Scoreboard {
    score: u32,
    shown: ShotResult,
}

impl View for Scoreboard {
    type V = BoardState;

    closed spec fn view(&self) -> BoardState {
        BoardState { score: self.score as nat, shown: self.shown }
    }
}

impl Scoreboard {
    /// A fresh board: no points and the idle outcome.
    pub fn new() -> (b: Scoreboard)
        ensures
            b@ == (BoardState { score: 0, shown: ShotResult::Miss }),
    {
        Scoreboard { score: 0, shown: ShotResult::Miss }
    }

    /// The current score.
    pub fn score(&self) -> (r: u32)
        ensures
            r as nat == self@.score,
    {
        self.score
    }

    /// The published outcome.
    pub fn shown(&self) -> (r: ShotResult)
        ensures
            r == self@.shown,
    {
        self.shown
    }

    /// Scores one attempt: adds a point for `Good` or `Perfect`.
    pub fn record(&mut self, o: ShotResult)
        ensures
            final(self)@ == after_record(old(self)@, o),
            old(self)@.score < u32::MAX as nat ==> final(self)@.score == old(self)@.score + (
            if earns_point(o) {
                1nat
            } else {
                0nat
            }),
    {
        match o {
            ShotResult::Miss => {},
            _ => {
                if self.score < u32::MAX {
                    self.score = self.score + 1;
                }
            },
        }
    }

    /// Makes `o` the published outcome; the score is left as it is.
    pub fn publish(&mut self, o: ShotResult)
        ensures
            final(self)@ == after_publish(old(self)@, o),
    {
        self.shown = o;
    }
}

/// The number of point-earning outcomes in `os`.
pub open spec fn hits(os: Seq<ShotResult>) -> nat
    decreases os.len(),
{
    if os.len() == 0 {
        0
    } else {
        hits(os.drop_last()) + if earns_point(os.last()) {
            1nat
        } else {
            0nat
        }
    }
}

/// The board after the attempts `os` were scored one after the other.
pub open spec fn record_all(b: BoardState, os: Seq<ShotResult>) -> BoardState
    decreases os.len(),
{
    if os.len() == 0 {
        b
    } else {
        after_record(record_all(b, os.drop_last()), os.last())
    }
}

/// Over any sequence of attempts the score grows by exactly the number of
/// `Good` and `Perfect` outcomes among them, as long as the counter has room
/// for one point per attempt; the published outcome is not touched.
pub proof fn lemma_score_counts_hits(b: BoardState, os: Seq<ShotResult>)
    requires
        b.score + os.len() <= u32::MAX as nat,
    ensures
        record_all(b, os).score == b.score + hits(os),
        record_all(b, os).score <= b.score + os.len(),
        record_all(b, os).shown == b.shown,
    decreases os.len(),
{
    if os.len() > 0 {
        lemma_score_counts_hits(b, os.drop_last());
    }
}

/// Publishing the same outcome twice leaves the board as publishing it once.
pub proof fn lemma_publish_idempotent(b: BoardState, o: ShotResult)
    ensures
        after_publish(after_publish(b, o), o) == after_publish(b, o),
{
}

/// Reading the board does not change it: with no write in between, two
/// reads of the score, or of the published outcome, agree.
pub proof fn lemma_reads_agree(b: Scoreboard, first: u32, second: u32, o1: ShotResult, o2: ShotResult)
    requires
        first as nat == b@.score,
        second as nat == b@.score,
        o1 == b@.shown,
        o2 == b@.shown,
    ensures
        first == second,
        o1 == o2,
{
}

} // verus!
