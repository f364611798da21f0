//! The signal encoder: from a symbol pattern and a base time unit to
//! the exact trace of pin actions that plays it.

use vstd::prelude::*;

verus! {

/// One timed step of the output signal.
///
/// `High` and `Low` drive the pin to that level and then hold it for
/// the given number of milliseconds; `Wait` leaves the pin untouched
/// and only lets the given time pass.
#[derive(Clone, Copy, Debug, PartialEq, Eq, Structural)]
pub enum Action {
    High(u32),
    Low(u32),
    Wait(u32),
}

/// The symbols the encoder understands: dot, dash and the letter gap.
/// Anything else is ignored, with a diagnostic.
pub open spec fn recognized(c: char) -> bool {
    c == '.' || c == '-' || c == ' '
}

/// A time unit is usable when it is positive and every derived
/// duration (up to the seven-unit word gap) still fits in 32 bits.
pub open spec fn valid_dot_unit(dot_ms: u32) -> bool {
    1 <= dot_ms && dot_ms <= u32::MAX / 7
}

/// The actions one symbol stands for: a dot is one unit of mark and a
/// one-unit gap, a dash three units of mark and a one-unit gap, and a
/// space adds two more units of silence on top of the one-unit gap
/// already played after the previous mark, for the conventional
/// three-unit letter gap. An unrecognized symbol contributes nothing.
pub open spec fn symbol_trace(c: char, dot_ms: u32) -> Seq<Action> {
    if c == '.' {
        seq![Action::High(dot_ms), Action::Low(dot_ms)]
    } else if c == '-' {
        seq![Action::High((3 * dot_ms) as u32), Action::Low(dot_ms)]
    } else if c == ' ' {
        seq![Action::Wait((2 * dot_ms) as u32)]
    } else {
        seq![]
    }
}

/// The trace of a whole pattern: the symbols' traces in pattern order.
pub open spec fn pattern_trace(p: Seq<char>, dot_ms: u32) -> Seq<Action>
    decreases p.len(),
{
    if p.len() == 0 {
        seq![]
    } else {
        symbol_trace(p[0], dot_ms) + pattern_trace(p.skip(1), dot_ms)
    }
}

/// The characters of a pattern that the encoder does not understand,
/// in pattern order: the diagnostics a run will emit.
pub open spec fn ignored_chars(p: Seq<char>) -> Seq<char>
    decreases p.len(),
{
    if p.len() == 0 {
        seq![]
    } else if recognized(p[0]) {
        ignored_chars(p.skip(1))
    } else {
        seq![p[0]] + ignored_chars(p.skip(1))
    }
}

proof fn lemma_pattern_trace_push(p: Seq<char>, c: char, dot_ms: u32)
    ensures
        pattern_trace(p.push(c), dot_ms) == pattern_trace(p, dot_ms) + symbol_trace(c, dot_ms),
    decreases p.len(),
{
    reveal_with_fuel(pattern_trace, 3);
    let q = p.push(c);
    if p.len() == 0 {
        assert(q[0] == c);
        assert(q.skip(1) =~= Seq::<char>::empty());
        assert(pattern_trace(q, dot_ms) =~= pattern_trace(p, dot_ms) + symbol_trace(c, dot_ms));
    } else {
        lemma_pattern_trace_push(p.skip(1), c, dot_ms);
        assert(q[0] == p[0]);
        assert(q.skip(1) =~= p.skip(1).push(c));
        assert(pattern_trace(q, dot_ms) == symbol_trace(q[0], dot_ms) + pattern_trace(
            q.skip(1),
            dot_ms,
        ));
        assert(pattern_trace(q.skip(1), dot_ms) == pattern_trace(p.skip(1), dot_ms)
            + symbol_trace(c, dot_ms));
        assert(pattern_trace(q, dot_ms) =~= pattern_trace(p, dot_ms) + symbol_trace(c, dot_ms));
    }
}

proof fn lemma_ignored_chars_push(p: Seq<char>, c: char)
    ensures
        ignored_chars(p.push(c)) == ignored_chars(p) + (if recognized(c) {
            Seq::<char>::empty()
        } else {
            seq![c]
        }),
    decreases p.len(),
{
    reveal_with_fuel(ignored_chars, 3);
    let q = p.push(c);
    if p.len() == 0 {
        assert(q[0] == c);
        assert(q.skip(1) =~= Seq::<char>::empty());
        if recognized(c) {
            assert(ignored_chars(q) =~= ignored_chars(p) + Seq::<char>::empty());
        } else {
            assert(ignored_chars(q) =~= ignored_chars(p) + seq![c]);
        }
    } else {
        lemma_ignored_chars_push(p.skip(1), c);
        assert(q[0] == p[0]);
        assert(q.skip(1) =~= p.skip(1).push(c));
        assert(ignored_chars(q.skip(1)) == ignored_chars(p.skip(1)) + (if recognized(c) {
            Seq::<char>::empty()
        } else {
            seq![c]
        }));
        if recognized(c) {
            assert(ignored_chars(q) =~= ignored_chars(p) + Seq::<char>::empty());
        } else {
            assert(ignored_chars(q) =~= ignored_chars(p) + seq![c]);
        }
    }
}

/// Whether a time unit is usable; the run must be refused otherwise,
/// rather than inherit undefined timing from a zero unit.
pub fn check_dot_unit(dot_ms: u32) -> (r: bool)
    ensures
        r == valid_dot_unit(dot_ms),
{
    1 <= dot_ms && dot_ms <= u32::MAX / 7
}

/// Encode one full pass over the pattern: the pin actions it plays, in
/// order, and the characters that were ignored as unrecognized.
pub fn encode(pattern: &str, dot_ms: u32) -> (r: (Vec<Action>, Vec<char>))
    requires
        valid_dot_unit(dot_ms),
    ensures
        r.0@ == pattern_trace(pattern@, dot_ms),
        r.1@ == ignored_chars(pattern@),
{
    let n = pattern.unicode_len();
    let mut acts: Vec<Action> = Vec::new();
    let mut ignored: Vec<char> = Vec::new();
    let mut i: usize = 0;
    while i < n
        invariant
            n == pattern@.len(),
            i <= n,
            valid_dot_unit(dot_ms),
            acts@ == pattern_trace(pattern@.take(i as int), dot_ms),
            ignored@ == ignored_chars(pattern@.take(i as int)),
        decreases n - i,
    {
        let c = pattern.get_char(i);
        proof {
            lemma_pattern_trace_push(pattern@.take(i as int), c, dot_ms);
            lemma_ignored_chars_push(pattern@.take(i as int), c);
            assert(pattern@.take(i + 1 as int) =~= pattern@.take(i as int).push(c));
        }
        if c == '.' {
            acts.push(Action::High(dot_ms));
            acts.push(Action::Low(dot_ms));
        } else if c == '-' {
            acts.push(Action::High(3 * dot_ms));
            acts.push(Action::Low(dot_ms));
        } else if c == ' ' {
            acts.push(Action::Wait(2 * dot_ms));
        } else {
            ignored.push(c);
        }
        proof {
            assert(acts@ =~= pattern_trace(pattern@.take(i + 1 as int), dot_ms));
            assert(ignored@ =~= ignored_chars(pattern@.take(i + 1 as int)));
        }
        i = i + 1;
    }
    proof {
        assert(pattern@.take(n as int) =~= pattern@);
    }
    (acts, ignored)
}

/// The trace is a function of the pattern and the time unit alone:
/// two runs over the same arguments see the very same actions, with no
/// hidden state carried from one run to the next.
pub proof fn lemma_trace_deterministic(t1: Seq<Action>, t2: Seq<Action>, p: Seq<char>, dot_ms: u32)
    requires
        t1 == pattern_trace(p, dot_ms),
        t2 == pattern_trace(p, dot_ms),
    ensures
        t1 == t2,
{
}

} // verus!
