//! The playback state machine: it owns no hardware, it only decides.
//!
//! Whatever loop owns the real pin and clock asks [`Player::next_step`]
//! what to do, performs the action, and reports back with
//! [`Player::step_done`] or [`Player::step_failed`]. The player replays
//! the encoded pattern in order, inserts the standard seven-unit word
//! gap between one full pass and the next, and after the first reported
//! failure hands out nothing but [`Step::Halted`], so no further action
//! is ever attempted.

use vstd::prelude::*;

use crate::morse::Action;
use crate::morse::check_dot_unit;
use crate::morse::encode;
use crate::morse::ignored_chars;
use crate::morse::pattern_trace;
use crate::morse::valid_dot_unit;

verus! {

/// The number of dot units of silence between two passes over the
/// pattern: the conventional word gap.
pub const WORD_GAP_UNITS: u32 = 7;

/// What the driving loop must do next: perform one action, or stop,
/// playback having been aborted by a failure.
#[derive(Clone, Copy, Debug, PartialEq, Eq, Structural)]
pub enum Step {
    Perform(Action),
    Halted,
}

/// The whole state of a run: the encoded trace of one pass, the
/// position within it, the pause to insert between passes, and whether
/// a hardware failure has ended the run.
pub struct Player {
    /// The actions of one full pass over the pattern, in play order.
    pub actions: Vec<Action>,
    /// How many actions of the current pass are already done. Equal to
    /// the trace length when the pass is over and the word gap is due.
    pub pos: usize,
    /// The pause between two passes, in milliseconds.
    pub pause_ms: u32,
    /// Set once a step was reported failed; never cleared.
    pub aborted: bool,
    /// The pattern characters that were ignored as unrecognized, for
    /// the caller to report as diagnostics.
    pub ignored: Vec<char>,
}

impl Player {
    /// Encode the pattern and stand ready at its first action.
    pub fn new(pattern: &str, dot_ms: u32) -> (p: Player)
        requires
            valid_dot_unit(dot_ms),
        ensures
            p.actions@ == pattern_trace(pattern@, dot_ms),
            p.ignored@ == ignored_chars(pattern@),
            p.pos == 0,
            p.pause_ms == WORD_GAP_UNITS * dot_ms,
            !p.aborted,
    {
        let (actions, ignored) = encode(pattern, dot_ms);
        Player { actions, pos: 0, pause_ms: WORD_GAP_UNITS * dot_ms, aborted: false, ignored }
    }

    /// Like [`Player::new`], but refuses an unusable time unit (zero,
    /// or so large that a derived duration would not fit in 32 bits)
    /// instead of requiring the caller to have checked it.
    pub fn try_new(pattern: &str, dot_ms: u32) -> (r: Option<Player>)
        ensures
            r is Some <==> valid_dot_unit(dot_ms),
            (match r {
                Some(p) => {
                    &&& p.actions@ == pattern_trace(pattern@, dot_ms)
                    &&& p.ignored@ == ignored_chars(pattern@)
                    &&& p.pos == 0
                    &&& p.pause_ms == WORD_GAP_UNITS * dot_ms
                    &&& !p.aborted
                },
                None => true,
            }),
    {
        if check_dot_unit(dot_ms) {
            Some(Player::new(pattern, dot_ms))
        } else {
            None
        }
    }

    /// What to do next: the pending action of the current pass, the
    /// word-gap wait once the pass is over, or nothing at all after a
    /// failure.
    pub fn next_step(&self) -> (s: Step)
        ensures
            self.aborted ==> s == Step::Halted,
            !self.aborted && self.pos < self.actions@.len() ==> s == Step::Perform(
                self.actions@[self.pos as int],
            ),
            !self.aborted && self.pos >= self.actions@.len() ==> s == Step::Perform(
                Action::Wait(self.pause_ms),
            ),
    {
        if self.aborted {
            Step::Halted
        } else if self.pos < self.actions.len() {
            Step::Perform(self.actions[self.pos])
        } else {
            Step::Perform(Action::Wait(self.pause_ms))
        }
    }

    /// The step handed out last completed: move on. After the last
    /// action of a pass the pending step is the word-gap wait; once
    /// that too is done, the next pass starts at the first action.
    pub fn step_done(&mut self)
        requires
            !old(self).aborted,
        ensures
            final(self).actions@ == old(self).actions@,
            final(self).ignored@ == old(self).ignored@,
            final(self).pause_ms == old(self).pause_ms,
            !final(self).aborted,
            old(self).pos < old(self).actions@.len() ==> final(self).pos == old(self).pos + 1,
            old(self).pos >= old(self).actions@.len() ==> final(self).pos == 0,
    {
        if self.pos < self.actions.len() {
            self.pos = self.pos + 1;
        } else {
            self.pos = 0;
        }
    }

    /// The step handed out last failed: the run is over for good.
    /// Nothing else changes, and every later [`Player::next_step`]
    /// answers [`Step::Halted`], so the failure is the caller's to
    /// propagate and no further action is attempted.
    pub fn step_failed(&mut self)
        ensures
            final(self).actions@ == old(self).actions@,
            final(self).ignored@ == old(self).ignored@,
            final(self).pause_ms == old(self).pause_ms,
            final(self).pos == old(self).pos,
            final(self).aborted,
    {
        self.aborted = true;
    }
}

} // verus!
