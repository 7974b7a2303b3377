//! FeedbackProcessor: turning a satisfaction rating into a bounded nudge of
//! the user's emotional resonance weights.
//!
//! A rating of one to five becomes a delta of `(satisfaction - 3) / 10` of a
//! unit — between −0.2 and +0.2, in `INTENSITY_SCALE` units between −200
//! and +200. A fresh resonance edge starts at half intensity plus the
//! delta; an existing edge moves by the delta; either way the intensity is
//! clamped into [0, 1], so no sequence of feedback ever drives it outside.

use vstd::prelude::*;

verus! {

/// The resonance delta of a satisfaction rating, in `INTENSITY_SCALE`
/// units: `(satisfaction - 3) / 10` of a unit.
pub open spec fn spec_satisfaction_delta(s: int) -> int {
    (s - 3) * 100
}

/// Compute the resonance delta of a rating.
pub fn satisfaction_delta(satisfaction: i32) -> (r: i32)
    requires
        1 <= satisfaction <= 5,
    ensures
        r == spec_satisfaction_delta(satisfaction as int),
        -200 <= r <= 200,
{
    (satisfaction - 3) * 100
}

/// Clamp an intensity into [0, 1] (in `INTENSITY_SCALE` units).
pub open spec fn clamp_unit(v: int) -> int {
    if v < 0 {
        0
    } else if v > 1000 {
        1000
    } else {
        v
    }
}

/// The intensity a resonance edge holds after one feedback: a fresh edge
/// starts at half intensity plus the delta, an existing one moves by the
/// delta, and the result is clamped into [0, 1].
pub open spec fn spec_apply_feedback(prev: Option<u32>, delta: int) -> int {
    match prev {
        Some(p) => clamp_unit(p + delta),
        None => clamp_unit(500 + delta),
    }
}

/// Apply one feedback delta to a resonance edge. The result never leaves
/// [0, 1], whatever the previous value was.
pub fn apply_feedback(prev: Option<u32>, delta: i32) -> (r: u32)
    ensures
        r == spec_apply_feedback(prev, delta as int),
        r <= 1000,
{
    let base: i64 = match prev {
        Some(p) => p as i64,
        None => 500,
    };
    let moved: i64 = base + delta as i64;
    if moved < 0 {
        0
    } else if moved > 1000 {
        1000
    } else {
        moved as u32
    }
}

/// One feedback on a resonance edge: the delta of the rating, applied and
/// clamped. A fresh edge rated three lands exactly at half intensity.
pub fn resonance_update(prev: Option<u32>, satisfaction: i32) -> (r: u32)
    requires
        1 <= satisfaction <= 5,
    ensures
        r == spec_apply_feedback(prev, spec_satisfaction_delta(satisfaction as int)),
        r <= 1000,
        prev is None && satisfaction == 3 ==> r == 500,
{
    let delta = satisfaction_delta(satisfaction);
    apply_feedback(prev, delta)
}

/// The intensity after a whole sequence of feedback ratings, starting from
/// `start`.
pub open spec fn feedback_sequence_state(start: int, satisfactions: Seq<int>, i: int) -> int
    decreases satisfactions.len() - i,
{
    if !(0 <= i < satisfactions.len()) {
        start
    } else {
        feedback_sequence_state(
            clamp_unit(start + spec_satisfaction_delta(satisfactions[i])),
            satisfactions,
            i + 1,
        )
    }
}

/// The resonance intensity never leaves [0, 1], whatever the length of the
/// feedback sequence and whatever its ratings.
pub proof fn lemma_feedback_stays_bounded(start: int, satisfactions: Seq<int>, i: int)
    requires
        0 <= start <= 1000,
        0 <= i <= satisfactions.len(),
    ensures
        0 <= feedback_sequence_state(start, satisfactions, i) <= 1000,
    decreases satisfactions.len() - i,
{
    if i < satisfactions.len() {
        lemma_feedback_stays_bounded(
            clamp_unit(start + spec_satisfaction_delta(satisfactions[i])),
            satisfactions,
            i + 1,
        );
    }
}

/// The emotions a feedback applies to: the ones the user reported, or the
/// single sentinel `neutral` when none were given.
pub fn effective_emotions(emotions_experienced: &Option<Vec<String>>) -> (r: Vec<String>)
    ensures
        match emotions_experienced {
            Some(v) => r@ == v@,
            None => r@.len() == 1 && r@[0]@ == "neutral"@,
        },
{
    match emotions_experienced {
        Some(v) => crate::recommendation::clone_strings(v),
        None => {
            let mut r: Vec<String> = Vec::new();
            r.push("neutral".to_owned());
            r
        },
    }
}

} // verus!
