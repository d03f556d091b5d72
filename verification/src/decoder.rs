//! Quadrature decoding: raw pin-pair samples in, direction events out.
//!
//! The decoder is a state machine over the 2-bit Gray code formed by the
//! two encoder pins (column index `(clk << 1) | dt`). A direction event is
//! emitted on exactly one transition per full clockwise cycle and one per
//! full counter-clockwise cycle; every pin pattern that is not a valid
//! quadrature transition falls back to the start state, so contact bounce
//! cannot accumulate spurious steps.

use vstd::prelude::*;

verus! {

/// A direction event reported for one pin sample.
#[derive(Clone, Copy, Debug, PartialEq, Eq, Structural)]
pub enum Direction {
    Clockwise,
    CounterClockwise,
    NoRotation,
}

impl Direction {
    /// The signed step delta an event contributes to the position.
    pub fn delta(&self) -> (d: i32)
        ensures
            d == match *self {
                Direction::Clockwise => 1int,
                Direction::CounterClockwise => -1int,
                Direction::NoRotation => 0int,
            },
    {
        match self {
            Direction::Clockwise => 1,
            Direction::CounterClockwise => -1,
            Direction::NoRotation => 0,
        }
    }
}

/// The decoder's internal state code. `Start` is the rest position (both
/// pins high on a detented encoder); the `Cw*` / `Ccw*` states track how far
/// a rotation has progressed through the four-phase Gray cycle.
#[derive(Clone, Copy, Debug, PartialEq, Eq, Structural)]
pub enum DecoderState {
    Start,
    CwBegin,
    CwNext,
    CwFinal,
    CcwBegin,
    CcwNext,
    CcwFinal,
}

/// The transition table. Rows are states; columns are the current pin pair
/// `(clk, dt)`. Any pattern that does not continue a valid quadrature cycle
/// returns to `Start` without an event.
pub open spec fn next_state(s: DecoderState, clk: bool, dt: bool) -> DecoderState {
    match s {
        DecoderState::Start => match (clk, dt) {
            (false, false) => DecoderState::Start,
            (false, true) => DecoderState::CwBegin,
            (true, false) => DecoderState::CcwBegin,
            (true, true) => DecoderState::Start,
        },
        DecoderState::CwBegin => match (clk, dt) {
            (false, false) => DecoderState::CwNext,
            (false, true) => DecoderState::CwBegin,
            (true, false) => DecoderState::Start,
            (true, true) => DecoderState::Start,
        },
        DecoderState::CwNext => match (clk, dt) {
            (false, false) => DecoderState::CwNext,
            (false, true) => DecoderState::CwBegin,
            (true, false) => DecoderState::CwFinal,
            (true, true) => DecoderState::Start,
        },
        DecoderState::CwFinal => match (clk, dt) {
            (false, false) => DecoderState::CwNext,
            (false, true) => DecoderState::Start,
            (true, false) => DecoderState::CwFinal,
            (true, true) => DecoderState::Start,
        },
        DecoderState::CcwBegin => match (clk, dt) {
            (false, false) => DecoderState::CcwNext,
            (false, true) => DecoderState::Start,
            (true, false) => DecoderState::CcwBegin,
            (true, true) => DecoderState::Start,
        },
        DecoderState::CcwNext => match (clk, dt) {
            (false, false) => DecoderState::CcwNext,
            (false, true) => DecoderState::CcwFinal,
            (true, false) => DecoderState::CcwBegin,
            (true, true) => DecoderState::Start,
        },
        DecoderState::CcwFinal => match (clk, dt) {
            (false, false) => DecoderState::CcwNext,
            (false, true) => DecoderState::CcwFinal,
            (true, false) => DecoderState::Start,
            (true, true) => DecoderState::Start,
        },
    }
}

/// The event emitted on a transition: only the two transitions that complete
/// a full cycle (back to the rest pattern from the matching final state)
/// report a direction.
pub open spec fn emitted(s: DecoderState, clk: bool, dt: bool) -> Direction {
    if s == DecoderState::CwFinal && clk && dt {
        Direction::Clockwise
    } else if s == DecoderState::CcwFinal && clk && dt {
        Direction::CounterClockwise
    } else {
        Direction::NoRotation
    }
}

/// The state after feeding a sequence of `(clk, dt)` samples.
pub open spec fn state_after(s: DecoderState, samples: Seq<(bool, bool)>) -> DecoderState
    decreases samples.len(),
{
    if samples.len() == 0 {
        s
    } else {
        state_after(next_state(s, samples[0].0, samples[0].1), samples.drop_first())
    }
}

/// The events emitted while feeding a sequence of `(clk, dt)` samples.
pub open spec fn events_of(s: DecoderState, samples: Seq<(bool, bool)>) -> Seq<Direction>
    decreases samples.len(),
{
    if samples.len() == 0 {
        Seq::empty()
    } else {
        seq![emitted(s, samples[0].0, samples[0].1)] + events_of(
            next_state(s, samples[0].0, samples[0].1),
            samples.drop_first(),
        )
    }
}

/// The direction events among a run's events, in order, with the quiet
/// reports dropped; its length is how many of the events report a rotation.
pub open spec fn rotations_of(events: Seq<Direction>) -> Seq<Direction>
    decreases events.len(),
{
    if events.len() == 0 {
        Seq::empty()
    } else if events[0] is NoRotation {
        rotations_of(events.drop_first())
    } else {
        seq![events[0]] + rotations_of(events.drop_first())
    }
}

/// `samples` holds each sample of `base` in order, each repeated for one or
/// more consecutive polls: the shape of any sampling of `base` at a higher
/// poll rate.
pub open spec fn is_stutter_of(samples: Seq<(bool, bool)>, base: Seq<(bool, bool)>) -> bool
    decreases samples.len(),
{
    if samples.len() == 0 {
        base.len() == 0
    } else if base.len() == 0 {
        false
    } else if samples[0] != base[0] {
        false
    } else {
        is_stutter_of(samples.drop_first(), base) || is_stutter_of(
            samples.drop_first(),
            base.drop_first(),
        )
    }
}

/// Over `base` the decoder "holds" each sample: after each transition it
/// sits in a state where seeing the same pin pattern again changes nothing
/// and reports nothing. This is what makes a sequence safe to poll at any
/// rate, and it holds along the valid quadrature cycles. It does not hold
/// of arbitrary noise: an invalid jump falls back to the rest state, where
/// the same pattern is then read afresh as the start of a new cycle.
pub open spec fn holds_each_sample(s: DecoderState, base: Seq<(bool, bool)>) -> bool
    decreases base.len(),
{
    if base.len() == 0 {
        true
    } else {
        let s1 = next_state(s, base[0].0, base[0].1);
        &&& next_state(s1, base[0].0, base[0].1) == s1
        &&& emitted(s1, base[0].0, base[0].1) is NoRotation
        &&& holds_each_sample(s1, base.drop_first())
    }
}

/// Unrolls `rotations_of` over a run's first event.
proof fn lemma_rotations_of_cons(e: Direction, rest: Seq<Direction>)
    ensures
        rotations_of(seq![e] + rest) == (if e is NoRotation {
            rotations_of(rest)
        } else {
            seq![e] + rotations_of(rest)
        }),
{
    let all = seq![e] + rest;
    assert(all[0] == e);
    assert(all.drop_first() =~= rest);
}

/// Poll-rate independence: over a base that the decoder holds sample by
/// sample, a run that sees each base sample for one or more consecutive
/// polls ends in the same state and reports exactly the same direction
/// events, in the same order, as the base itself.
pub proof fn lemma_stutter_invariant(
    s: DecoderState,
    samples: Seq<(bool, bool)>,
    base: Seq<(bool, bool)>,
)
    requires
        is_stutter_of(samples, base),
        holds_each_sample(s, base),
    ensures
        state_after(s, samples) == state_after(s, base),
        rotations_of(events_of(s, samples)) == rotations_of(events_of(s, base)),
    decreases samples.len(),
{
    if samples.len() == 0 {
    } else {
        let p = samples[0];
        let s1 = next_state(s, p.0, p.1);
        lemma_rotations_of_cons(emitted(s, p.0, p.1), events_of(s1, samples.drop_first()));
        lemma_rotations_of_cons(emitted(s, p.0, p.1), events_of(s1, base.drop_first()));
        if is_stutter_of(samples.drop_first(), base.drop_first()) {
            lemma_stutter_invariant(s1, samples.drop_first(), base.drop_first());
        } else {
            // The head sample is repeated: the decoder holds it, so the
            // repeat is absorbed against the same base.
            assert(next_state(s1, p.0, p.1) == s1);
            assert(emitted(s1, p.0, p.1) is NoRotation);
            assert(holds_each_sample(s1, base));
            lemma_stutter_invariant(s1, samples.drop_first(), base);
            lemma_rotations_of_cons(emitted(s1, p.0, p.1), events_of(s1, base.drop_first()));
        }
    }
}

/// The pin samples of one clockwise detent, starting and ending at the rest
/// pattern `(clk, dt) = (1, 1)`.
pub open spec fn cw_detent_samples() -> Seq<(bool, bool)> {
    seq![(false, true), (false, false), (true, false), (true, true)]
}

/// The same physical motion reversed: one counter-clockwise detent.
pub open spec fn ccw_detent_samples() -> Seq<(bool, bool)> {
    seq![(true, false), (false, false), (false, true), (true, true)]
}

/// Unrolls a four-sample run into its individual transitions.
proof fn lemma_run_four(s: DecoderState, p0: (bool, bool), p1: (bool, bool), p2: (bool, bool), p3: (
    bool,
    bool,
))
    ensures
        ({
            let s1 = next_state(s, p0.0, p0.1);
            let s2 = next_state(s1, p1.0, p1.1);
            let s3 = next_state(s2, p2.0, p2.1);
            &&& events_of(s, seq![p0, p1, p2, p3]) =~= seq![
                emitted(s, p0.0, p0.1),
                emitted(s1, p1.0, p1.1),
                emitted(s2, p2.0, p2.1),
                emitted(s3, p3.0, p3.1),
            ]
            &&& state_after(s, seq![p0, p1, p2, p3]) == next_state(s3, p3.0, p3.1)
        }),
{
    let samples = seq![p0, p1, p2, p3];
    assert(samples.drop_first() =~= seq![p1, p2, p3]);
    assert(seq![p1, p2, p3].drop_first() =~= seq![p2, p3]);
    assert(seq![p2, p3].drop_first() =~= seq![p3]);
    assert(seq![p3].drop_first() =~= Seq::<(bool, bool)>::empty());
    reveal_with_fuel(events_of, 5);
    reveal_with_fuel(state_after, 5);
}

/// The rotation events of a four-event run, written out by length.
proof fn lemma_rotations_four(e0: Direction, e1: Direction, e2: Direction, e3: Direction)
    ensures
        rotations_of(seq![e0, e1, e2, e3]).len() == (if e0 is NoRotation {
            0int
        } else {
            1int
        }) + (if e1 is NoRotation {
            0int
        } else {
            1int
        }) + (if e2 is NoRotation {
            0int
        } else {
            1int
        }) + (if e3 is NoRotation {
            0int
        } else {
            1int
        }),
{
    let events = seq![e0, e1, e2, e3];
    assert(events.drop_first() =~= seq![e1, e2, e3]);
    assert(seq![e1, e2, e3].drop_first() =~= seq![e2, e3]);
    assert(seq![e2, e3].drop_first() =~= seq![e3]);
    assert(seq![e3].drop_first() =~= Seq::<Direction>::empty());
    reveal_with_fuel(rotations_of, 5);
}

/// One clockwise detent, decoded from rest, reports exactly one event: a
/// single `Clockwise`, on the last transition, with the decoder back at
/// rest. The reverse physical sequence reports a single `CounterClockwise`.
pub proof fn lemma_detent_exactly_one_event()
    ensures
        events_of(DecoderState::Start, cw_detent_samples()) =~= seq![
            Direction::NoRotation,
            Direction::NoRotation,
            Direction::NoRotation,
            Direction::Clockwise,
        ],
        state_after(DecoderState::Start, cw_detent_samples()) == DecoderState::Start,
        events_of(DecoderState::Start, ccw_detent_samples()) =~= seq![
            Direction::NoRotation,
            Direction::NoRotation,
            Direction::NoRotation,
            Direction::CounterClockwise,
        ],
        state_after(DecoderState::Start, ccw_detent_samples()) == DecoderState::Start,
{
    lemma_run_four(
        DecoderState::Start,
        (false, true),
        (false, false),
        (true, false),
        (true, true),
    );
    lemma_run_four(
        DecoderState::Start,
        (true, false),
        (false, false),
        (false, true),
        (true, true),
    );
}

/// From any decoder state, one detent's worth of samples can never report
/// more than one rotation event, and it always leaves the decoder at rest.
pub proof fn lemma_detent_at_most_one_event(s: DecoderState)
    ensures
        rotations_of(events_of(s, cw_detent_samples())).len() <= 1,
        rotations_of(events_of(s, ccw_detent_samples())).len() <= 1,
        state_after(s, cw_detent_samples()) == DecoderState::Start,
        state_after(s, ccw_detent_samples()) == DecoderState::Start,
{
    lemma_run_four(s, (false, true), (false, false), (true, false), (true, true));
    lemma_run_four(s, (true, false), (false, false), (false, true), (true, true));
    let s1 = next_state(s, false, true);
    let s2 = next_state(s1, false, false);
    let s3 = next_state(s2, true, false);
    lemma_rotations_four(
        emitted(s, false, true),
        emitted(s1, false, false),
        emitted(s2, true, false),
        emitted(s3, true, true),
    );
    let r1 = next_state(s, true, false);
    let r2 = next_state(r1, false, false);
    let r3 = next_state(r2, false, true);
    lemma_rotations_four(
        emitted(s, true, false),
        emitted(r1, false, false),
        emitted(r2, false, true),
        emitted(r3, true, true),
    );
}

/// A run of quiet reports closed by one direction event boils down to that
/// event.
proof fn lemma_rotations_of_quiet_then(d: Direction)
    requires
        d !is NoRotation,
    ensures
        rotations_of(
            seq![Direction::NoRotation, Direction::NoRotation, Direction::NoRotation, d],
        ) == seq![d],
{
    let events = seq![Direction::NoRotation, Direction::NoRotation, Direction::NoRotation, d];
    assert(events.drop_first() =~= seq![Direction::NoRotation, Direction::NoRotation, d]);
    assert(seq![Direction::NoRotation, Direction::NoRotation, d].drop_first() =~= seq![
        Direction::NoRotation,
        d,
    ]);
    assert(seq![Direction::NoRotation, d].drop_first() =~= seq![d]);
    assert(seq![d].drop_first() =~= Seq::<Direction>::empty());
    reveal_with_fuel(rotations_of, 5);
    assert(rotations_of(events) =~= seq![d]);
}

/// The canonical cycles are held sample by sample, and their runs from rest
/// boil down to one direction event each.
proof fn lemma_detent_base_facts()
    ensures
        holds_each_sample(DecoderState::Start, cw_detent_samples()),
        holds_each_sample(DecoderState::Start, ccw_detent_samples()),
        rotations_of(events_of(DecoderState::Start, cw_detent_samples())) == seq![
            Direction::Clockwise,
        ],
        rotations_of(events_of(DecoderState::Start, ccw_detent_samples())) == seq![
            Direction::CounterClockwise,
        ],
{
    lemma_detent_exactly_one_event();
    lemma_rotations_of_quiet_then(Direction::Clockwise);
    lemma_rotations_of_quiet_then(Direction::CounterClockwise);
    let cw = cw_detent_samples();
    assert(cw.drop_first() =~= seq![(false, false), (true, false), (true, true)]);
    assert(seq![(false, false), (true, false), (true, true)].drop_first() =~= seq![
        (true, false),
        (true, true),
    ]);
    assert(seq![(true, false), (true, true)].drop_first() =~= seq![(true, true)]);
    assert(seq![(true, true)].drop_first() =~= Seq::<(bool, bool)>::empty());
    let ccw = ccw_detent_samples();
    assert(ccw.drop_first() =~= seq![(false, false), (false, true), (true, true)]);
    assert(seq![(false, false), (false, true), (true, true)].drop_first() =~= seq![
        (false, true),
        (true, true),
    ]);
    assert(seq![(false, true), (true, true)].drop_first() =~= seq![(true, true)]);
    reveal_with_fuel(holds_each_sample, 5);
}

/// Stuttered runs of a held base, with or without leading polls of the rest
/// pattern, match the base's run from rest.
proof fn lemma_detent_any_rate(samples: Seq<(bool, bool)>, base: Seq<(bool, bool)>, d: Direction)
    requires
        holds_each_sample(DecoderState::Start, base),
        state_after(DecoderState::Start, base) == DecoderState::Start,
        rotations_of(events_of(DecoderState::Start, base)) == seq![d],
        is_stutter_of(samples, base) || is_stutter_of(samples, seq![(true, true)] + base),
    ensures
        rotations_of(events_of(DecoderState::Start, samples)) == seq![d],
        state_after(DecoderState::Start, samples) == DecoderState::Start,
{
    let start = DecoderState::Start;
    if is_stutter_of(samples, base) {
        lemma_stutter_invariant(start, samples, base);
    } else {
        let padded = seq![(true, true)] + base;
        assert(padded[0] == (true, true));
        assert(padded.drop_first() =~= base);
        assert(next_state(start, true, true) == start);
        assert(emitted(start, true, true) is NoRotation);
        assert(holds_each_sample(start, padded));
        lemma_stutter_invariant(start, samples, padded);
        assert(state_after(start, padded) == state_after(start, base));
        assert(events_of(start, padded) == seq![emitted(start, true, true)] + events_of(
            start,
            base,
        ));
        lemma_rotations_of_cons(emitted(start, true, true), events_of(start, base));
    }
}

/// A valid single-detent clockwise sequence at any poll rate — the
/// four-phase Gray cycle with each phase seen for one or more consecutive
/// polls, possibly preceded by polls of the rest pattern — reports, decoded
/// from rest, exactly one event, a single `Clockwise`, however many extra
/// samples repeat a phase; and it returns the decoder to rest.
pub proof fn lemma_cw_detent_any_poll_rate(samples: Seq<(bool, bool)>)
    requires
        is_stutter_of(samples, cw_detent_samples()) || is_stutter_of(
            samples,
            seq![(true, true)] + cw_detent_samples(),
        ),
    ensures
        rotations_of(events_of(DecoderState::Start, samples)) == seq![Direction::Clockwise],
        state_after(DecoderState::Start, samples) == DecoderState::Start,
{
    lemma_detent_exactly_one_event();
    lemma_detent_base_facts();
    lemma_detent_any_rate(samples, cw_detent_samples(), Direction::Clockwise);
}

/// The reverse physical sequence, at any poll rate, reports exactly one
/// event of the opposite direction: a single `CounterClockwise`.
pub proof fn lemma_ccw_detent_any_poll_rate(samples: Seq<(bool, bool)>)
    requires
        is_stutter_of(samples, ccw_detent_samples()) || is_stutter_of(
            samples,
            seq![(true, true)] + ccw_detent_samples(),
        ),
    ensures
        rotations_of(events_of(DecoderState::Start, samples)) == seq![Direction::CounterClockwise],
        state_after(DecoderState::Start, samples) == DecoderState::Start,
{
    lemma_detent_exactly_one_event();
    lemma_detent_base_facts();
    lemma_detent_any_rate(samples, ccw_detent_samples(), Direction::CounterClockwise);
}

/// The quadrature decoder: feeds on raw pin samples, reports at most one
/// direction event per call, exactly one per completed detent.
pub struct QuadratureDecoder {
    state: DecoderState,
}

impl QuadratureDecoder {
    /// The decoder's current state code.
    pub closed spec fn state_code(self) -> DecoderState {
        self.state
    }

    /// A fresh decoder at rest.
    pub fn new() -> (d: QuadratureDecoder)
        ensures
            d.state_code() == DecoderState::Start,
    {
        QuadratureDecoder { state: DecoderState::Start }
    }

    /// Feed one pin sample; the returned event and the new state follow the
    /// transition table exactly.
    pub fn update(&mut self, clk: bool, dt: bool) -> (dir: Direction)
        ensures
            final(self).state_code() == next_state(old(self).state_code(), clk, dt),
            dir == emitted(old(self).state_code(), clk, dt),
    {
        let dir = if clk && dt {
            match self.state {
                DecoderState::CwFinal => Direction::Clockwise,
                DecoderState::CcwFinal => Direction::CounterClockwise,
                _ => Direction::NoRotation,
            }
        } else {
            Direction::NoRotation
        };
        self.state = match self.state {
            DecoderState::Start => match (clk, dt) {
                (false, false) => DecoderState::Start,
                (false, true) => DecoderState::CwBegin,
                (true, false) => DecoderState::CcwBegin,
                (true, true) => DecoderState::Start,
            },
            DecoderState::CwBegin => match (clk, dt) {
                (false, false) => DecoderState::CwNext,
                (false, true) => DecoderState::CwBegin,
                (true, false) => DecoderState::Start,
                (true, true) => DecoderState::Start,
            },
            DecoderState::CwNext => match (clk, dt) {
                (false, false) => DecoderState::CwNext,
                (false, true) => DecoderState::CwBegin,
                (true, false) => DecoderState::CwFinal,
                (true, true) => DecoderState::Start,
            },
            DecoderState::CwFinal => match (clk, dt) {
                (false, false) => DecoderState::CwNext,
                (false, true) => DecoderState::Start,
                (true, false) => DecoderState::CwFinal,
                (true, true) => DecoderState::Start,
            },
            DecoderState::CcwBegin => match (clk, dt) {
                (false, false) => DecoderState::CcwNext,
                (false, true) => DecoderState::Start,
                (true, false) => DecoderState::CcwBegin,
                (true, true) => DecoderState::Start,
            },
            DecoderState::CcwNext => match (clk, dt) {
                (false, false) => DecoderState::CcwNext,
                (false, true) => DecoderState::CcwFinal,
                (true, false) => DecoderState::CcwBegin,
                (true, true) => DecoderState::Start,
            },
            DecoderState::CcwFinal => match (clk, dt) {
                (false, false) => DecoderState::CcwNext,
                (false, true) => DecoderState::CcwFinal,
                (true, false) => DecoderState::Start,
                (true, true) => DecoderState::Start,
            },
        };
        dir
    }
}

} // verus!
