//! Named intervals and their semitone and letter distances; two-note intervals.
use crate::error::{Error, Result};
use crate::notes::Notes;
use crate::pitch::{pitches_view, transposed, PitchOctave, PitchOrder, Pitches};
use vstd::prelude::*;

verus! {

/// Two notes: a root and the note an interval above or below it.
pub struct Interval {
    pub root: PitchOctave,
    pub kind: IntervalType,
    pub pitch_order: PitchOrder,
}

impl Interval {
    /// An ascending interval.
    pub fn new(root: PitchOctave, kind: IntervalType) -> (r: Self)
        ensures
            r.root == root,
            r.kind == kind,
            r.pitch_order == PitchOrder::Ascending,
    {
        Self { root, kind, pitch_order: PitchOrder::Ascending }
    }

    pub fn new_with_order(root: PitchOctave, kind: IntervalType, pitch_order: PitchOrder) -> (r:
        Self)
        ensures
            r.root == root,
            r.kind == kind,
            r.pitch_order == pitch_order,
    {
        Self { root, kind, pitch_order }
    }

    /// The root followed by the note `kind` above it (ascending) or below it
    /// (descending).
    pub open spec fn interval_notes(self) -> Result<Seq<PitchOctave>> {
        match transposed(self.root, self.kind, self.pitch_order == PitchOrder::Ascending) {
            Ok(tone) => Ok(seq![self.root, tone]),
            Err(e) => Err(e),
        }
    }

    pub fn gen_notes(&self) -> (r: Result<Pitches>)
        ensures
            pitches_view(r) == self.interval_notes(),
    {
        let mut interval = Pitches(vec![self.root]);
        let tone = match self.pitch_order {
            PitchOrder::Ascending => self.root.checked_add(self.kind)?,
            PitchOrder::Descending => self.root.checked_sub(self.kind)?,
        };
        interval.0.push(tone);
        assert(interval@ =~= seq![self.root, tone]);
        Ok(interval)
    }
}

impl Notes for Interval {
    open spec fn spec_notes(&self) -> Result<Seq<PitchOctave>> {
        self.interval_notes()
    }

    fn notes(&self) -> (r: Result<Pitches>) {
        self.gen_notes()
    }
}

/// The quality class of an interval.
#[derive(Copy, Clone, Debug, PartialEq, Eq, Structural)]
pub enum Quality {
    Perfect,
    Major,
    Minor,
    Augmented,
    Diminished,
}

/// A named interval, from unison to octave.
#[derive(Copy, Clone, Debug, PartialEq, Eq, Structural)]
pub enum IntervalType {
    Unison,
    DiminishedSecond,
    MinorSecond,
    MajorSecond,
    DiminishedThird,
    AugmentedSecond,
    MinorThird,
    MajorThird,
    DiminishedFourth,
    AugmentedThird,
    Fourth,
    AugmentedFourth,
    DiminishedFifth,
    Fifth,
    DiminishedSixth,
    AugmentedFifth,
    MinorSixth,
    MajorSixth,
    DiminishedSeventh,
    AugmentedSixth,
    MinorSeventh,
    MajorSeventh,
    DiminishedEighth,
    AugmentedSeventh,
    Octave,
}

/// Letters between the two notes of an interval: 0 for a unison, 7 for an octave.
pub open spec fn interval_steps(i: IntervalType) -> int {
    match i {
        IntervalType::Unison => 0,
        IntervalType::DiminishedSecond | IntervalType::MinorSecond | IntervalType::MajorSecond
        | IntervalType::AugmentedSecond => 1,
        IntervalType::DiminishedThird | IntervalType::MinorThird | IntervalType::MajorThird
        | IntervalType::AugmentedThird => 2,
        IntervalType::DiminishedFourth | IntervalType::Fourth | IntervalType::AugmentedFourth => 3,
        IntervalType::DiminishedFifth | IntervalType::Fifth | IntervalType::AugmentedFifth => 4,
        IntervalType::DiminishedSixth | IntervalType::MinorSixth | IntervalType::MajorSixth
        | IntervalType::AugmentedSixth => 5,
        IntervalType::DiminishedSeventh | IntervalType::MinorSeventh | IntervalType::MajorSeventh
        | IntervalType::AugmentedSeventh => 6,
        IntervalType::DiminishedEighth | IntervalType::Octave => 7,
    }
}

/// Semitones between the two notes of an interval.
pub open spec fn interval_semitones(i: IntervalType) -> int {
    match i {
        IntervalType::Unison | IntervalType::DiminishedSecond => 0,
        IntervalType::MinorSecond => 1,
        IntervalType::MajorSecond | IntervalType::DiminishedThird => 2,
        IntervalType::AugmentedSecond | IntervalType::MinorThird => 3,
        IntervalType::MajorThird | IntervalType::DiminishedFourth => 4,
        IntervalType::AugmentedThird | IntervalType::Fourth => 5,
        IntervalType::AugmentedFourth | IntervalType::DiminishedFifth => 6,
        IntervalType::Fifth | IntervalType::DiminishedSixth => 7,
        IntervalType::AugmentedFifth | IntervalType::MinorSixth => 8,
        IntervalType::MajorSixth | IntervalType::DiminishedSeventh => 9,
        IntervalType::AugmentedSixth | IntervalType::MinorSeventh => 10,
        IntervalType::MajorSeventh | IntervalType::DiminishedEighth => 11,
        IntervalType::AugmentedSeventh | IntervalType::Octave => 12,
    }
}

pub open spec fn interval_quality(i: IntervalType) -> Quality {
    match i {
        IntervalType::Unison | IntervalType::Fourth | IntervalType::Fifth
        | IntervalType::Octave => Quality::Perfect,
        IntervalType::DiminishedSecond | IntervalType::DiminishedThird
        | IntervalType::DiminishedFourth | IntervalType::DiminishedFifth
        | IntervalType::DiminishedSixth | IntervalType::DiminishedSeventh
        | IntervalType::DiminishedEighth => Quality::Diminished,
        IntervalType::MajorSecond | IntervalType::MajorThird | IntervalType::MajorSixth
        | IntervalType::MajorSeventh => Quality::Major,
        IntervalType::AugmentedSecond | IntervalType::AugmentedThird
        | IntervalType::AugmentedFourth | IntervalType::AugmentedFifth
        | IntervalType::AugmentedSixth | IntervalType::AugmentedSeventh => Quality::Augmented,
        IntervalType::MinorSecond | IntervalType::MinorThird | IntervalType::MinorSixth
        | IntervalType::MinorSeventh => Quality::Minor,
    }
}

/// The plain interval of `n` semitones (0 to 12): the perfect, major or minor one,
/// and the augmented fourth for 6.
pub open spec fn interval_of_semitones(n: int) -> IntervalType {
    if n <= 0 {
        IntervalType::Unison
    } else if n == 1 {
        IntervalType::MinorSecond
    } else if n == 2 {
        IntervalType::MajorSecond
    } else if n == 3 {
        IntervalType::MinorThird
    } else if n == 4 {
        IntervalType::MajorThird
    } else if n == 5 {
        IntervalType::Fourth
    } else if n == 6 {
        IntervalType::AugmentedFourth
    } else if n == 7 {
        IntervalType::Fifth
    } else if n == 8 {
        IntervalType::MinorSixth
    } else if n == 9 {
        IntervalType::MajorSixth
    } else if n == 10 {
        IntervalType::MinorSeventh
    } else if n == 11 {
        IntervalType::MajorSeventh
    } else {
        IntervalType::Octave
    }
}

impl IntervalType {
    /// Letters between the two notes: 0 for a unison, 7 for an octave.
    pub fn get_diatonic_value(&self) -> (r: u8)
        ensures
            r == interval_steps(*self),
    {
        match self {
            IntervalType::Unison => 0,
            IntervalType::AugmentedSecond
            | IntervalType::DiminishedSecond
            | IntervalType::MinorSecond
            | IntervalType::MajorSecond => 1,
            IntervalType::DiminishedThird
            | IntervalType::AugmentedThird
            | IntervalType::MajorThird
            | IntervalType::MinorThird => 2,
            IntervalType::AugmentedFourth
            | IntervalType::DiminishedFourth
            | IntervalType::Fourth => 3,
            IntervalType::AugmentedFifth
            | IntervalType::DiminishedFifth
            | IntervalType::Fifth => 4,
            IntervalType::AugmentedSixth
            | IntervalType::DiminishedSixth
            | IntervalType::MinorSixth
            | IntervalType::MajorSixth => 5,
            IntervalType::DiminishedSeventh
            | IntervalType::MinorSeventh
            | IntervalType::MajorSeventh
            | IntervalType::AugmentedSeventh => 6,
            IntervalType::Octave | IntervalType::DiminishedEighth => 7,
        }
    }

    /// Whether the interval is perfect, major, minor, augmented or diminished.
    pub fn get_quality(&self) -> (r: Quality)
        ensures
            r == interval_quality(*self),
    {
        match self {
            IntervalType::Unison
            | IntervalType::Fourth
            | IntervalType::Fifth
            | IntervalType::Octave => Quality::Perfect,
            IntervalType::DiminishedSecond
            | IntervalType::DiminishedThird
            | IntervalType::DiminishedFourth
            | IntervalType::DiminishedFifth
            | IntervalType::DiminishedSixth
            | IntervalType::DiminishedSeventh
            | IntervalType::DiminishedEighth => Quality::Diminished,
            IntervalType::MajorSecond
            | IntervalType::MajorThird
            | IntervalType::MajorSixth
            | IntervalType::MajorSeventh => Quality::Major,
            IntervalType::AugmentedFifth
            | IntervalType::AugmentedThird
            | IntervalType::AugmentedSixth
            | IntervalType::AugmentedSecond
            | IntervalType::AugmentedFourth
            | IntervalType::AugmentedSeventh => Quality::Augmented,
            IntervalType::MinorSecond
            | IntervalType::MinorThird
            | IntervalType::MinorSixth
            | IntervalType::MinorSeventh => Quality::Minor,
        }
    }

    /// Semitones between the two notes.
    pub fn get_semitone_value(&self) -> (r: u8)
        ensures
            r == interval_semitones(*self),
            r <= 12,
    {
        match self {
            IntervalType::Unison => 0,
            IntervalType::DiminishedSecond => 0,
            IntervalType::MinorSecond => 1,
            IntervalType::MajorSecond => 2,
            IntervalType::DiminishedThird => 2,
            IntervalType::AugmentedSecond => 3,
            IntervalType::AugmentedThird => 5,
            IntervalType::MinorThird => 3,
            IntervalType::MajorThird => 4,
            IntervalType::DiminishedFourth => 4,
            IntervalType::Fourth => 5,
            IntervalType::AugmentedFourth => 6,
            IntervalType::DiminishedFifth => 6,
            IntervalType::Fifth => 7,
            IntervalType::DiminishedSixth => 7,
            IntervalType::AugmentedFifth => 8,
            IntervalType::MinorSixth => 8,
            IntervalType::MajorSixth => 9,
            IntervalType::AugmentedSixth => 10,
            IntervalType::DiminishedSeventh => 9,
            IntervalType::MinorSeventh => 10,
            IntervalType::MajorSeventh => 11,
            IntervalType::DiminishedEighth => 11,
            IntervalType::AugmentedSeventh => 12,
            IntervalType::Octave => 12,
        }
    }

    /// The plain interval spanning `value` semitones.
    pub fn from_semitones(value: u8) -> (r: IntervalType)
        requires
            value <= 12,
        ensures
            r == interval_of_semitones(value as int),
            interval_semitones(r) == value,
    {
        match value {
            0 => IntervalType::Unison,
            1 => IntervalType::MinorSecond,
            2 => IntervalType::MajorSecond,
            3 => IntervalType::MinorThird,
            4 => IntervalType::MajorThird,
            5 => IntervalType::Fourth,
            6 => IntervalType::AugmentedFourth,
            7 => IntervalType::Fifth,
            8 => IntervalType::MinorSixth,
            9 => IntervalType::MajorSixth,
            10 => IntervalType::MinorSeventh,
            11 => IntervalType::MajorSeventh,
            _ => IntervalType::Octave,
        }
    }
}

/// The pitches reached from `root` by the plain interval of each offset in turn,
/// upward or downward; the first failure is the result.
pub open spec fn stacked(root: PitchOctave, offsets: Seq<u8>, up: bool) -> Result<
    Seq<PitchOctave>,
>
    decreases offsets.len(),
{
    if offsets.len() == 0 {
        Ok(Seq::empty())
    } else {
        match stacked(root, offsets.drop_last(), up) {
            Err(e) => Err(e),
            Ok(prev) => match transposed(root, interval_of_semitones(offsets.last() as int), up) {
                Err(e) => Err(e),
                Ok(tone) => Ok(prev.push(tone)),
            },
        }
    }
}

/// Appends to `tones` the pitches reached from `root` by each offset in turn.
pub(crate) fn push_stacked(
    root: PitchOctave,
    offsets: &Vec<u8>,
    up: bool,
    tones: &mut Vec<PitchOctave>,
) -> (r: Result<()>)
    requires
        forall|k: int| 0 <= k < offsets@.len() ==> offsets@[k] <= 12,
    ensures
        match stacked(root, offsets@, up) {
            Ok(s) => r is Ok && final(tones)@ == old(tones)@ + s,
            Err(e) => r == Err::<(), Error>(e),
        },
{
    let ghost start = tones@;
    let mut k: usize = 0;
    while k < offsets.len()
        invariant
            k <= offsets@.len(),
            forall|j: int| 0 <= j < offsets@.len() ==> offsets@[j] <= 12,
            stacked(root, offsets@.take(k as int), up) matches Ok(s) && tones@ == start + s,
        decreases offsets@.len() - k,
    {
        let kind = IntervalType::from_semitones(offsets[k]);
        let result = if up {
            root.checked_add(kind)
        } else {
            root.checked_sub(kind)
        };
        assert(offsets@.take(k + 1).drop_last() =~= offsets@.take(k as int));
        match result {
            Ok(tone) => {
                tones.push(tone);
                assert(tones@ =~= start + stacked(root, offsets@.take(k + 1), up)->Ok_0);
            },
            Err(e) => {
                proof {
                    lemma_stacked_error(root, offsets@, up, k + 1);
                }
                return Err(e);
            },
        }
        k = k + 1;
    }
    assert(offsets@.take(k as int) =~= offsets@);
    Ok(())
}

/// Once a prefix of the offsets fails, the whole stack fails the same way.
proof fn lemma_stacked_error(root: PitchOctave, offsets: Seq<u8>, up: bool, n: int)
    requires
        0 <= n <= offsets.len(),
        stacked(root, offsets.take(n), up) is Err,
    ensures
        stacked(root, offsets, up) == stacked(root, offsets.take(n), up),
    decreases offsets.len() - n,
{
    if n < offsets.len() {
        assert(offsets.take(n + 1).drop_last() =~= offsets.take(n));
        lemma_stacked_error(root, offsets, up, n + 1);
    } else {
        assert(offsets.take(n) =~= offsets);
    }
}

} // verus!
