//! Laws of the pitch arithmetic, stated over the engine's contracts.
use crate::error::Error;
use crate::interval::{interval_steps, IntervalType};
use crate::pitch::{
    diatonic_semitone, lemma_octave_number, lemma_spelled_in_octave, lemma_step_index,
    moved_octave, moved_step, octave_number, step_index, step_of_index, target_semitone,
    transposed, Pitch, PitchOctave,
};
use vstd::prelude::*;

verus! {

/// What the engine's result is made of: it sounds the target, lies on the moved
/// letter, and sits in the octave the letter count reached.
proof fn lemma_transposed_parts(p: PitchOctave, i: IntervalType, up: bool)
    requires
        transposed(p, i, up) is Ok,
    ensures
        ({
            let r = transposed(p, i, up)->Ok_0;
            &&& r.semitone() == target_semitone(p, i, up)
            &&& r.pitch.step == moved_step(p, i, up)
            &&& octave_number(r.octave) == moved_octave(p, i, up)
        }),
{
    lemma_spelled_in_octave(
        target_semitone(p, i, up),
        diatonic_semitone(p, i, up),
        moved_step(p, i, up),
        moved_octave(p, i, up),
    );
}

/// Adding a unison leaves the pitch, and so its octave, as it is.
pub proof fn lemma_unison_keeps_octave(p: PitchOctave)
    requires
        transposed(p, IntervalType::Unison, true) is Ok,
    ensures
        transposed(p, IntervalType::Unison, true)->Ok_0.octave == p.octave,
        transposed(p, IntervalType::Unison, true) == Ok::<PitchOctave, Error>(p),
{
    let i = IntervalType::Unison;
    lemma_step_index(p.pitch.step);
    lemma_octave_number(p.octave);
    lemma_transposed_parts(p, i, true);
    let r = transposed(p, i, true)->Ok_0;
    lemma_octave_number(r.octave);
}

/// Counting letters up past B into C puts the result one octave higher, and
/// counting down past C into B one octave lower; otherwise the octave is kept.
pub proof fn lemma_letter_carry(p: PitchOctave, i: IntervalType, up: bool)
    requires
        transposed(p, i, up) is Ok,
    ensures
        ({
            let r = transposed(p, i, up)->Ok_0;
            let k = step_index(p.pitch.step);
            let d = interval_steps(i);
            &&& up && d != 0 && k + d >= 7 ==> octave_number(r.octave) == octave_number(p.octave)
                + 1
            &&& up && !(d != 0 && k + d >= 7) ==> r.octave == p.octave
            &&& !up && d != 0 && k - d < 0 ==> octave_number(r.octave) == octave_number(p.octave)
                - 1
            &&& !up && !(d != 0 && k - d < 0) ==> r.octave == p.octave
        }),
{
    lemma_octave_number(p.octave);
    let r = transposed(p, i, up)->Ok_0;
    lemma_octave_number(r.octave);
    lemma_transposed_parts(p, i, up);
}

proof fn lemma_letters_return(p: PitchOctave, i: IntervalType, up: bool)
    ensures
        ({
            let q = PitchOctave {
                pitch: Pitch { step: moved_step(p, i, up), alter: p.pitch.alter },
                octave: p.octave,
            };
            &&& moved_step(q, i, !up) == p.pitch.step
            &&& (up ==> (interval_steps(i) != 0 && step_index(q.pitch.step) - interval_steps(i) < 0
                <==> interval_steps(i) != 0 && step_index(p.pitch.step) + interval_steps(i) >= 7))
            &&& (!up ==> (interval_steps(i) != 0 && step_index(q.pitch.step) + interval_steps(i)
                >= 7 <==> interval_steps(i) != 0 && step_index(p.pitch.step) - interval_steps(i)
                < 0))
        }),
{
    lemma_step_index(p.pitch.step);
    let k = step_index(p.pitch.step);
    let d = interval_steps(i);
    if up {
        lemma_step_index(step_of_index(k + d));
    } else {
        lemma_step_index(step_of_index(k - d));
    }
}

proof fn lemma_inverse(p: PitchOctave, i: IntervalType, up: bool)
    requires
        transposed(p, i, up) is Ok,
        transposed(transposed(p, i, up)->Ok_0, i, !up) is Ok,
    ensures
        transposed(transposed(p, i, up)->Ok_0, i, !up) == Ok::<PitchOctave, Error>(p),
{
    let q = transposed(p, i, up)->Ok_0;
    lemma_octave_number(p.octave);
    lemma_step_index(p.pitch.step);
    lemma_transposed_parts(p, i, up);
    lemma_letters_return(p, i, up);
    let q0 = PitchOctave {
        pitch: Pitch { step: moved_step(p, i, up), alter: p.pitch.alter },
        octave: p.octave,
    };
    assert(moved_step(q, i, !up) == moved_step(q0, i, !up));
    assert(moved_octave(q, i, !up) == octave_number(p.octave));
    let r = transposed(q, i, !up)->Ok_0;
    lemma_transposed_parts(q, i, !up);
    lemma_octave_number(r.octave);
    assert(r.pitch == p.pitch);
}

/// Adding an interval undoes subtracting it: where both succeed, the pitch comes
/// back.
pub proof fn lemma_add_undoes_subtract(p: PitchOctave, i: IntervalType)
    requires
        transposed(p, i, false) is Ok,
        transposed(transposed(p, i, false)->Ok_0, i, true) is Ok,
    ensures
        transposed(transposed(p, i, false)->Ok_0, i, true) == Ok::<PitchOctave, Error>(p),
{
    lemma_inverse(p, i, false);
}

/// Subtracting an interval undoes adding it: where both succeed, the pitch comes
/// back.
pub proof fn lemma_subtract_undoes_add(p: PitchOctave, i: IntervalType)
    requires
        transposed(p, i, true) is Ok,
        transposed(transposed(p, i, true)->Ok_0, i, false) is Ok,
    ensures
        transposed(transposed(p, i, true)->Ok_0, i, false) == Ok::<PitchOctave, Error>(p),
{
    lemma_inverse(p, i, true);
}

} // verus!
