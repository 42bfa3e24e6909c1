//! The pitch model: letters, accidentals, octaves and their semitone values.
use crate::error::{Error, Result};
use crate::interval::{interval_semitones, interval_steps, IntervalType};
use vstd::prelude::*;

verus! {

/// The lowest absolute semitone value a pitch may have.
pub const MIN_NOTE_VALUE: i8 = 12;

/// The highest absolute semitone value a pitch may have.
pub const MAX_NOTE_VALUE: i8 = 96;

/// Direction in which a sequence of pitches is generated.
#[derive(Copy, Clone, Debug, PartialEq, Eq, Structural)]
pub enum PitchOrder {
    Ascending,
    Descending,
}

impl Default for PitchOrder {
    fn default() -> (r: PitchOrder)
        ensures
            r == PitchOrder::Ascending,
    {
        PitchOrder::Ascending
    }
}

/// A register, from 0 to 8.
#[derive(Copy, Clone, Debug, PartialEq, Eq, Structural)]
pub enum Octave {
    Octave0,
    Octave1,
    Octave2,
    Octave3,
    Octave4,
    Octave5,
    Octave6,
    Octave7,
    Octave8,
}

pub open spec fn octave_number(o: Octave) -> int {
    match o {
        Octave::Octave0 => 0,
        Octave::Octave1 => 1,
        Octave::Octave2 => 2,
        Octave::Octave3 => 3,
        Octave::Octave4 => 4,
        Octave::Octave5 => 5,
        Octave::Octave6 => 6,
        Octave::Octave7 => 7,
        Octave::Octave8 => 8,
    }
}

/// The octave with number `n`, for `0 <= n <= 8`.
pub open spec fn octave_of_number(n: int) -> Octave {
    if n <= 0 {
        Octave::Octave0
    } else if n == 1 {
        Octave::Octave1
    } else if n == 2 {
        Octave::Octave2
    } else if n == 3 {
        Octave::Octave3
    } else if n == 4 {
        Octave::Octave4
    } else if n == 5 {
        Octave::Octave5
    } else if n == 6 {
        Octave::Octave6
    } else if n == 7 {
        Octave::Octave7
    } else {
        Octave::Octave8
    }
}

pub proof fn lemma_octave_number(o: Octave)
    ensures
        0 <= octave_number(o) <= 8,
        octave_of_number(octave_number(o)) == o,
{
}

impl Default for Octave {
    fn default() -> (r: Octave)
        ensures
            r == Octave::Octave3,
    {
        Octave::Octave3
    }
}

impl Octave {
    /// The octave with the given number.
    pub fn from_number(n: u8) -> (r: Octave)
        requires
            n <= 8,
        ensures
            octave_number(r) == n,
    {
        match n {
            0 => Octave::Octave0,
            1 => Octave::Octave1,
            2 => Octave::Octave2,
            3 => Octave::Octave3,
            4 => Octave::Octave4,
            5 => Octave::Octave5,
            6 => Octave::Octave6,
            7 => Octave::Octave7,
            _ => Octave::Octave8,
        }
    }

    /// The number of this octave, from 0 to 8.
    pub fn number(&self) -> (r: u8)
        ensures
            r == octave_number(*self),
            r <= 8,
    {
        match self {
            Octave::Octave0 => 0,
            Octave::Octave1 => 1,
            Octave::Octave2 => 2,
            Octave::Octave3 => 3,
            Octave::Octave4 => 4,
            Octave::Octave5 => 5,
            Octave::Octave6 => 6,
            Octave::Octave7 => 7,
            Octave::Octave8 => 8,
        }
    }

    /// The next octave up; octave 8 stays where it is.
    pub fn increment(&self) -> (r: Octave)
        ensures
            octave_number(r) == if octave_number(*self) == 8 {
                8
            } else {
                octave_number(*self) + 1
            },
    {
        match *self {
            Octave::Octave8 => Octave::Octave8,
            _ => Octave::from_number(self.number() + 1),
        }
    }

    /// The next octave down; octave 0 stays where it is.
    pub fn decrement(&self) -> (r: Octave)
        ensures
            octave_number(r) == if octave_number(*self) == 0 {
                0
            } else {
                octave_number(*self) - 1
            },
    {
        match *self {
            Octave::Octave0 => Octave::Octave0,
            _ => Octave::from_number(self.number() - 1),
        }
    }
}

/// Which accidental spells a semitone that falls between two natural letters.
#[derive(Copy, Clone, Debug, PartialEq, Eq, Structural)]
pub enum AccidentalSpelling {
    Flat,
    Sharp,
}

impl Default for AccidentalSpelling {
    fn default() -> (r: AccidentalSpelling)
        ensures
            r == AccidentalSpelling::Flat,
    {
        AccidentalSpelling::Flat
    }
}

/// An accidental: an offset of -2 to 2 semitones from the natural letter.
#[derive(Copy, Clone, Debug, PartialEq, Eq, Structural)]
pub enum Alter {
    DoubleFlat,
    Flat,
    Natural,
    Sharp,
    DoubleSharp,
}

impl Default for Alter {
    fn default() -> (r: Alter)
        ensures
            r == Alter::Natural,
    {
        Alter::Natural
    }
}

pub open spec fn alter_offset(a: Alter) -> int {
    match a {
        Alter::DoubleFlat => -2,
        Alter::Flat => -1,
        Alter::Natural => 0,
        Alter::Sharp => 1,
        Alter::DoubleSharp => 2,
    }
}

/// The accidental with offset `k`, for `-2 <= k <= 2`.
pub open spec fn alter_of_offset(k: int) -> Alter {
    if k <= -2 {
        Alter::DoubleFlat
    } else if k == -1 {
        Alter::Flat
    } else if k == 0 {
        Alter::Natural
    } else if k == 1 {
        Alter::Sharp
    } else {
        Alter::DoubleSharp
    }
}

pub open spec fn spelling_alter(s: AccidentalSpelling) -> Alter {
    match s {
        AccidentalSpelling::Flat => Alter::Flat,
        AccidentalSpelling::Sharp => Alter::Sharp,
    }
}

impl Alter {
    /// The offset of this accidental in semitones.
    pub fn offset(&self) -> (r: i8)
        ensures
            r == alter_offset(*self),
    {
        match self {
            Alter::DoubleFlat => -2,
            Alter::Flat => -1,
            Alter::Natural => 0,
            Alter::Sharp => 1,
            Alter::DoubleSharp => 2,
        }
    }
}

/// A letter name, ordered C < D < E < F < G < A < B and cyclic.
#[derive(Copy, Clone, Debug, PartialEq, Eq, Structural)]
pub enum Step {
    C,
    D,
    E,
    F,
    G,
    A,
    B,
}

impl Default for Step {
    fn default() -> (r: Step)
        ensures
            r == Step::C,
    {
        Step::C
    }
}

/// Position of a letter in C D E F G A B, from 0 to 6.
pub open spec fn step_index(s: Step) -> int {
    match s {
        Step::C => 0,
        Step::D => 1,
        Step::E => 2,
        Step::F => 3,
        Step::G => 4,
        Step::A => 5,
        Step::B => 6,
    }
}

/// The letter at position `i` (taken modulo 7).
pub open spec fn step_of_index(i: int) -> Step {
    let k = i % 7;
    if k == 0 {
        Step::C
    } else if k == 1 {
        Step::D
    } else if k == 2 {
        Step::E
    } else if k == 3 {
        Step::F
    } else if k == 4 {
        Step::G
    } else if k == 5 {
        Step::A
    } else {
        Step::B
    }
}

/// The semitone value of a natural letter in octave 3: C is 48, B is 59.
pub open spec fn natural_semitone(s: Step) -> int {
    match s {
        Step::C => 48,
        Step::D => 50,
        Step::E => 52,
        Step::F => 53,
        Step::G => 55,
        Step::A => 57,
        Step::B => 59,
    }
}

pub proof fn lemma_step_index(s: Step)
    ensures
        0 <= step_index(s) <= 6,
        step_of_index(step_index(s)) == s,
        48 <= natural_semitone(s) <= 59,
{
}

impl Step {
    /// Position of this letter in C D E F G A B.
    pub fn index(&self) -> (r: u8)
        ensures
            r == step_index(*self),
            r <= 6,
    {
        match self {
            Step::C => 0,
            Step::D => 1,
            Step::E => 2,
            Step::F => 3,
            Step::G => 4,
            Step::A => 5,
            Step::B => 6,
        }
    }

    /// The semitone value of this natural letter in octave 3.
    pub fn semitone(&self) -> (r: i8)
        ensures
            r == natural_semitone(*self),
    {
        match self {
            Step::C => 48,
            Step::D => 50,
            Step::E => 52,
            Step::F => 53,
            Step::G => 55,
            Step::A => 57,
            Step::B => 59,
        }
    }

    /// The next letter up; B wraps to C.
    pub fn increment(&self) -> (r: Step)
        ensures
            r == step_of_index(step_index(*self) + 1),
    {
        match self {
            Step::C => Step::D,
            Step::D => Step::E,
            Step::E => Step::F,
            Step::F => Step::G,
            Step::G => Step::A,
            Step::A => Step::B,
            Step::B => Step::C,
        }
    }

    /// The next letter down; C wraps to B.
    pub fn decrement(&self) -> (r: Step)
        ensures
            r == step_of_index(step_index(*self) - 1),
    {
        match self {
            Step::C => Step::B,
            Step::B => Step::A,
            Step::A => Step::G,
            Step::G => Step::F,
            Step::F => Step::E,
            Step::E => Step::D,
            Step::D => Step::C,
        }
    }

    /// The letter `n` letters above this one, counted cyclically.
    pub fn plus(self, n: u8) -> (r: Step)
        ensures
            r == step_of_index(step_index(self) + n),
    {
        let mut result = self;
        let mut k: u8 = 0;
        while k < n
            invariant
                k <= n,
                result == step_of_index(step_index(self) + k),
            decreases n - k,
        {
            result = result.increment();
            k = k + 1;
        }
        result
    }

    /// The letter `n` letters below this one, counted cyclically.
    pub fn minus(self, n: u8) -> (r: Step)
        ensures
            r == step_of_index(step_index(self) - n),
    {
        let mut result = self;
        let mut k: u8 = 0;
        while k < n
            invariant
                k <= n,
                result == step_of_index(step_index(self) - k),
            decreases n - k,
        {
            result = result.decrement();
            k = k + 1;
        }
        result
    }
}

/// A semitone value of octave 3 (48 to 59) that lies between two natural letters.
pub open spec fn is_black_key(v: int) -> bool {
    v == 49 || v == 51 || v == 54 || v == 56 || v == 58
}

impl Step {
    /// The natural letter whose semitone value in octave 3 is `value`.
    /// A value between two letters is `AlterValue`; one outside 48..=59 is `OutofBounds`.
    pub fn from_semitone(value: i8) -> (r: Result<Step>)
        ensures
            r is Ok <==> (48 <= value <= 59 && !is_black_key(value as int)),
            match r {
                Ok(s) => natural_semitone(s) == value,
                Err(e) => e == if 48 <= value <= 59 {
                    Error::AlterValue
                } else {
                    Error::OutofBounds
                },
            },
    {
        match value {
            48 => Ok(Step::C),
            49 => Err(Error::AlterValue),
            50 => Ok(Step::D),
            51 => Err(Error::AlterValue),
            52 => Ok(Step::E),
            53 => Ok(Step::F),
            54 => Err(Error::AlterValue),
            55 => Ok(Step::G),
            56 => Err(Error::AlterValue),
            57 => Ok(Step::A),
            58 => Err(Error::AlterValue),
            59 => Ok(Step::B),
            _ => Err(Error::OutofBounds),
        }
    }
}

/// A spelled note name without octave, such as F#.
#[derive(Copy, Clone, Debug, PartialEq, Eq, Structural)]
pub struct Pitch {
    pub step: Step,
    pub alter: Alter,
}

impl Default for Pitch {
    fn default() -> (r: Pitch)
        ensures
            r == (Pitch { step: Step::C, alter: Alter::Natural }),
    {
        Pitch { step: Step::C, alter: Alter::Natural }
    }
}

/// A fully specified note: a spelled pitch and its octave.
#[derive(Copy, Clone, Debug, PartialEq, Eq, Structural)]
pub struct PitchOctave {
    pub pitch: Pitch,
    pub octave: Octave,
}

impl Default for PitchOctave {
    fn default() -> (r: PitchOctave)
        ensures
            r == (PitchOctave {
                pitch: Pitch { step: Step::C, alter: Alter::Natural },
                octave: Octave::Octave3,
            }),
    {
        PitchOctave { pitch: Pitch { step: Step::C, alter: Alter::Natural }, octave: Octave::Octave3 }
    }
}

/// Whether `v` is an absolute semitone value that a pitch may have.
pub open spec fn in_range(v: int) -> bool {
    MIN_NOTE_VALUE <= v <= MAX_NOTE_VALUE
}

/// The octave in which the absolute semitone value `v` lies: 12 to 23 is octave 0.
pub open spec fn octave_of_semitone(v: int) -> int {
    v / 12 - 1
}

/// Whether the semitone value `v` falls on a natural letter of its octave.
pub open spec fn is_natural_class(v: int) -> bool {
    !is_black_key(v % 12 + 48)
}

impl PitchOctave {
    /// The absolute semitone value: the natural letter, its accidental and the octave.
    pub open spec fn semitone(self) -> int {
        natural_semitone(self.pitch.step) + alter_offset(self.pitch.alter) + (octave_number(
            self.octave,
        ) - 3) * 12
    }

    /// Whether the absolute semitone value lies in the representable range.
    pub open spec fn is_valid(self) -> bool {
        in_range(self.semitone())
    }

    pub fn new(pitch: Pitch, octave: Octave) -> (r: PitchOctave)
        ensures
            r.pitch == pitch,
            r.octave == octave,
    {
        PitchOctave { pitch, octave }
    }

    /// The absolute semitone value, or `OutofBounds` where it lies outside 12..=96.
    pub fn get_semitone_value(&self) -> (r: Result<i8>)
        ensures
            match r {
                Ok(v) => v == self.semitone() && self.is_valid(),
                Err(e) => e == Error::OutofBounds && !self.is_valid(),
            },
    {
        let mut pitch_semitones: i8 = self.pitch.step.semitone();
        let alter_semitones: i8 = self.pitch.alter.offset();
        let numeric_octave: i8 = self.octave.number() as i8;
        pitch_semitones = pitch_semitones + alter_semitones;
        pitch_semitones = pitch_semitones + (numeric_octave - 3) * 12;
        if pitch_semitones < MIN_NOTE_VALUE || pitch_semitones > MAX_NOTE_VALUE {
            Err(Error::OutofBounds)
        } else {
            Ok(pitch_semitones)
        }
    }

    /// The octave in which an absolute semitone value lies.
    pub fn calculate_octave(semitone: u8) -> (r: Octave)
        requires
            12 <= semitone < 120,
        ensures
            octave_number(r) == octave_of_semitone(semitone as int),
    {
        let num: u8 = (semitone / 12) - 1;
        Octave::from_number(num)
    }

    /// The pitch with absolute semitone value `semitone`. A value that falls on a
    /// natural letter is spelled without accidental; any other is spelled with the
    /// preferred accidental. Values outside 12..=96 are `OutofBounds`.
    pub fn new_from_semitone(semitone: i8, prefer_spelling: AccidentalSpelling) -> (r: Result<
        PitchOctave,
    >)
        ensures
            r is Ok <==> in_range(semitone as int),
            r is Err ==> r == Err::<PitchOctave, Error>(Error::OutofBounds),
            r matches Ok(p) ==> {
                &&& p.semitone() == semitone
                &&& octave_number(p.octave) == octave_of_semitone(semitone as int)
                &&& p.pitch.alter == if is_natural_class(semitone as int) {
                    Alter::Natural
                } else {
                    spelling_alter(prefer_spelling)
                }
            },
    {
        if semitone < MIN_NOTE_VALUE || semitone > MAX_NOTE_VALUE {
            return Err(Error::OutofBounds);
        }
        let octave = Self::calculate_octave(semitone as u8);
        let numeric_octave: i8 = octave.number() as i8;
        let alter = match prefer_spelling {
            AccidentalSpelling::Flat => Alter::Flat,
            AccidentalSpelling::Sharp => Alter::Sharp,
        };
        let numeric_alter: i8 = alter.offset();
        // the value moved into octave 3, where the letters have their base values
        let middle_c_number: i8 = semitone - (numeric_octave - 3) * 12;
        proof {
            vstd::arithmetic::div_mod::lemma_fundamental_div_mod(semitone as int, 12);
        }
        assert(middle_c_number == semitone % 12 + 48);
        match Step::from_semitone(middle_c_number) {
            Ok(diatonic_step) => {
                Ok(PitchOctave { pitch: Pitch { step: diatonic_step, alter: Alter::Natural }, octave })
            },
            Err(_) => {
                let natural_number: i8 = middle_c_number - numeric_alter;
                match Step::from_semitone(natural_number) {
                    Ok(diatonic_step) => Ok(
                        PitchOctave { pitch: Pitch { step: diatonic_step, alter }, octave },
                    ),
                    Err(_) => {
                        // every black key has a natural letter on either side
                        assert(false);
                        Err(Error::OutofBounds)
                    },
                }
            },
        }
    }

    /// Writes the pitch from the neighbouring letter: `Sharp` moves to the letter
    /// below, `Flat` to the letter above. The octave follows the letter across the
    /// B/C boundary, so a natural pitch whose neighbour lies a semitone away keeps
    /// its sounding semitone (E becomes F-flat, B3 becomes C-flat 4, C4 becomes
    /// B-sharp 3).
    pub fn respell_pitch(&mut self, alter: Alter)
        requires
            alter == Alter::Sharp || alter == Alter::Flat,
            !(alter == Alter::Sharp && old(self).pitch.step == Step::C && old(self).octave
                == Octave::Octave0),
            !(alter == Alter::Flat && old(self).pitch.step == Step::B && old(self).octave
                == Octave::Octave8),
        ensures
            final(self).pitch.alter == alter,
            final(self).pitch.step == if alter == Alter::Sharp {
                step_of_index(step_index(old(self).pitch.step) - 1)
            } else {
                step_of_index(step_index(old(self).pitch.step) + 1)
            },
            octave_number(final(self).octave) == octave_number(old(self).octave) + if alter
                == Alter::Flat && old(self).pitch.step == Step::B {
                1int
            } else if alter == Alter::Sharp && old(self).pitch.step == Step::C {
                -1int
            } else {
                0int
            },
            old(self).pitch.alter == Alter::Natural && (alter == Alter::Flat ==> (old(
                self,
            ).pitch.step == Step::E || old(self).pitch.step == Step::B)) && (alter == Alter::Sharp
                ==> (old(self).pitch.step == Step::F || old(self).pitch.step == Step::C))
                ==> final(self).semitone() == old(self).semitone(),
    {
        match alter {
            Alter::Sharp => {
                if self.pitch.step == Step::C {
                    self.octave = self.octave.decrement();
                }
                self.pitch.step = self.pitch.step.decrement();
                self.pitch.alter = alter;
            },
            _ => {
                if self.pitch.step == Step::B {
                    self.octave = self.octave.increment();
                }
                self.pitch.step = self.pitch.step.increment();
                self.pitch.alter = alter;
            },
        }
    }
}

/// The letter reached from `p` by the interval's letter distance, upward or downward.
pub open spec fn moved_step(p: PitchOctave, i: IntervalType, up: bool) -> Step {
    if up {
        step_of_index(step_index(p.pitch.step) + interval_steps(i))
    } else {
        step_of_index(step_index(p.pitch.step) - interval_steps(i))
    }
}

/// The octave of the moved letter: one more when counting up passes from B to C,
/// one less when counting down passes from C to B. A unison never changes it.
pub open spec fn moved_octave(p: PitchOctave, i: IntervalType, up: bool) -> int {
    let k = step_index(p.pitch.step);
    let d = interval_steps(i);
    let o = octave_number(p.octave);
    if up {
        if d != 0 && k + d >= 7 {
            o + 1
        } else {
            o
        }
    } else {
        if d != 0 && k - d < 0 {
            o - 1
        } else {
            o
        }
    }
}

/// The semitone value of the moved letter, natural, in its octave.
pub open spec fn diatonic_semitone(p: PitchOctave, i: IntervalType, up: bool) -> int {
    natural_semitone(moved_step(p, i, up)) + (moved_octave(p, i, up) - 3) * 12
}

/// The semitone value that the interval reaches from `p`.
pub open spec fn target_semitone(p: PitchOctave, i: IntervalType, up: bool) -> int {
    if up {
        p.semitone() + interval_semitones(i)
    } else {
        p.semitone() - interval_semitones(i)
    }
}

/// The pitch that spells semitone value `t` on the letter `s` of octave `o`, whose
/// natural value is `n`: that letter and octave, with the accidental `t - n`.
pub open spec fn spelled(t: int, n: int, s: Step, o: int) -> Result<PitchOctave> {
    if n - t > 1 || n - t < -1 {
        Err(Error::SpellingFault)
    } else {
        Ok(
            PitchOctave {
                pitch: Pitch { step: s, alter: alter_of_offset(t - n) },
                octave: octave_of_number(o),
            },
        )
    }
}

/// The pitch an interval away from `p`, upward or downward. The letter comes from
/// the letter distance, the accidental from the semitone distance; a result that
/// would need more than one sharp or flat is a `SpellingFault`, and any value
/// outside 12..=96 is `OutofBounds`.
pub open spec fn transposed(p: PitchOctave, i: IntervalType, up: bool) -> Result<PitchOctave> {
    let t = target_semitone(p, i, up);
    let n = diatonic_semitone(p, i, up);
    if !p.is_valid() || !in_range(t) || !in_range(n) {
        Err(Error::OutofBounds)
    } else {
        spelled(t, n, moved_step(p, i, up), moved_octave(p, i, up))
    }
}

/// A spelled result sounds the target and lies in the octave of its letter.
pub proof fn lemma_spelled_in_octave(t: int, n: int, s: Step, o: int)
    requires
        in_range(n),
        n == natural_semitone(s) + (o - 3) * 12,
        spelled(t, n, s, o) is Ok,
    ensures
        0 <= o <= 7,
        octave_number(spelled(t, n, s, o)->Ok_0.octave) == o,
        spelled(t, n, s, o)->Ok_0.semitone() == t,
{
    lemma_step_index(s);
}

proof fn lemma_natural_neighbours(a: Step, b: Step)
    ensures
        natural_semitone(a) == natural_semitone(b) ==> a == b,
        natural_semitone(b) == natural_semitone(a) + 1 ==> b == step_of_index(step_index(a) + 1),
        natural_semitone(b) == natural_semitone(a) - 1 ==> b == step_of_index(step_index(a) - 1),
        a == Step::B && b == Step::C ==> b == step_of_index(step_index(a) + 1),
        a == Step::C && b == Step::B ==> b == step_of_index(step_index(a) - 1),
{
}

impl PitchOctave {
    /// Spells the semitone value `target` on the letter `step`, whose natural value
    /// in octave `octave` is `diatonic`.
    fn reconcile(target: i8, step: Step, octave: i8, diatonic: i8) -> (r: Result<PitchOctave>)
        requires
            in_range(target as int),
            in_range(diatonic as int),
            diatonic == natural_semitone(step) + (octave - 3) * 12,
        ensures
            r == spelled(target as int, diatonic as int, step, octave as int),
    {
        let difference: i8 = diatonic - target;
        if difference > 1 || difference < -1 {
            return Err(Error::SpellingFault);
        }
        let spelling = if difference == -1 {
            AccidentalSpelling::Sharp
        } else {
            AccidentalSpelling::Flat
        };
        let mut pabs = match Self::new_from_semitone(target, spelling) {
            Ok(p) => p,
            Err(e) => return Err(e),
        };
        proof {
            vstd::arithmetic::div_mod::lemma_fundamental_div_mod(target as int, 12);
            vstd::arithmetic::div_mod::lemma_fundamental_div_mod(diatonic as int, 12);
            lemma_step_index(step);
            lemma_step_index(pabs.pitch.step);
            lemma_natural_neighbours(pabs.pitch.step, step);
        }
        if pabs.pitch.alter == Alter::Natural {
            // a natural result is written from the neighbouring letter
            if difference == 1 {
                pabs.respell_pitch(Alter::Flat);
            } else if difference == -1 {
                pabs.respell_pitch(Alter::Sharp);
            }
        }
        proof {
            lemma_octave_number(pabs.octave);
            lemma_spelled_in_octave(target as int, diatonic as int, step, octave as int);
        }
        Ok(pabs)
    }

    /// The pitch `v` below this one, spelled on the letter `v` counts down to.
    pub fn checked_sub(&self, v: IntervalType) -> (r: Result<PitchOctave>)
        ensures
            r == transposed(*self, v, false),
            !in_range(target_semitone(*self, v, false)) ==> r == Err::<PitchOctave, Error>(
                Error::OutofBounds,
            ),
            r matches Ok(q) ==> {
                &&& q.semitone() == target_semitone(*self, v, false)
                &&& q.is_valid()
                &&& q.pitch.step == moved_step(*self, v, false)
                &&& octave_number(q.octave) == moved_octave(*self, v, false)
            },
    {
        let source_semitone = self.get_semitone_value()?;
        let target_semitone: i8 = source_semitone - v.get_semitone_value() as i8;
        if target_semitone < MIN_NOTE_VALUE || target_semitone > MAX_NOTE_VALUE {
            return Err(Error::OutofBounds);
        }
        let steps: u8 = v.get_diatonic_value();
        let new_diatonic_step = self.pitch.step.minus(steps);
        let mut octave: i8 = self.octave.number() as i8;
        if steps != 0 && self.pitch.step.index() < steps {
            // counting down passed from C to B
            octave = octave - 1;
        }
        let diatonic_semitone: i8 = new_diatonic_step.semitone() + (octave - 3) * 12;
        if diatonic_semitone < MIN_NOTE_VALUE || diatonic_semitone > MAX_NOTE_VALUE {
            return Err(Error::OutofBounds);
        }
        let r = Self::reconcile(target_semitone, new_diatonic_step, octave, diatonic_semitone);
        proof {
            if r is Ok {
                lemma_spelled_in_octave(
                    target_semitone as int,
                    diatonic_semitone as int,
                    new_diatonic_step,
                    octave as int,
                );
            }
        }
        r
    }

    /// The pitch `v` above this one, spelled on the letter `v` counts up to.
    pub fn checked_add(&self, v: IntervalType) -> (r: Result<PitchOctave>)
        ensures
            r == transposed(*self, v, true),
            !in_range(target_semitone(*self, v, true)) ==> r == Err::<PitchOctave, Error>(
                Error::OutofBounds,
            ),
            r matches Ok(q) ==> {
                &&& q.semitone() == target_semitone(*self, v, true)
                &&& q.is_valid()
                &&& q.pitch.step == moved_step(*self, v, true)
                &&& octave_number(q.octave) == moved_octave(*self, v, true)
            },
    {
        let source_semitone = self.get_semitone_value()?;
        let target_semitone: i8 = source_semitone + v.get_semitone_value() as i8;
        if target_semitone < MIN_NOTE_VALUE || target_semitone > MAX_NOTE_VALUE {
            return Err(Error::OutofBounds);
        }
        let steps: u8 = v.get_diatonic_value();
        let new_diatonic_step = self.pitch.step.plus(steps);
        let mut octave: i8 = self.octave.number() as i8;
        if steps != 0 && self.pitch.step.index() + steps >= 7 {
            // counting up passed from B to C
            octave = octave + 1;
        }
        let diatonic_semitone: i8 = new_diatonic_step.semitone() + (octave - 3) * 12;
        if diatonic_semitone < MIN_NOTE_VALUE || diatonic_semitone > MAX_NOTE_VALUE {
            return Err(Error::OutofBounds);
        }
        let r = Self::reconcile(target_semitone, new_diatonic_step, octave, diatonic_semitone);
        proof {
            if r is Ok {
                lemma_spelled_in_octave(
                    target_semitone as int,
                    diatonic_semitone as int,
                    new_diatonic_step,
                    octave as int,
                );
            }
        }
        r
    }
}

/// An ordered sequence of pitches, as produced by a generator.
pub struct Pitches(pub Vec<PitchOctave>);

impl View for Pitches {
    type V = Seq<PitchOctave>;

    open spec fn view(&self) -> Seq<PitchOctave> {
        self.0@
    }
}

/// The pitches of a generator's result, or its error.
pub open spec fn pitches_view(r: Result<Pitches>) -> Result<Seq<PitchOctave>> {
    match r {
        Ok(p) => Ok(p@),
        Err(e) => Err(e),
    }
}

} // verus!
