//! Chords: quality tables and inversions built with the pitch engine.
use crate::error::{Error, Result};
use crate::interval::{push_stacked, stacked, IntervalType};
use crate::notes::Notes;
use crate::pitch::{pitches_view, transposed, PitchOctave, Pitches};
use vstd::prelude::*;

verus! {

/// A chord: a root, a quality and the inversion in which it is voiced.
#[derive(Clone, Copy, Debug, PartialEq, Eq, Structural)]
pub struct Chord {
    pub root: PitchOctave,
    pub kind: ChordQuality,
    pub inversion: Inversion,
}

/// Which chord tone is the lowest.
#[derive(Clone, Copy, Debug, PartialEq, Eq, Structural)]
pub enum Inversion {
    Root,
    First,
    Second,
    Third,
    Fourth,
}

impl Default for Inversion {
    fn default() -> (r: Inversion)
        ensures
            r == Inversion::Root,
    {
        Inversion::Root
    }
}

/// Tones above the root that a third inversion needs.
pub const MINIMUM_LEN_THIRD_INVERSION: usize = 3;

/// Tones above the root that a fourth inversion needs.
pub const MINIMUM_LEN_FOURTH_INVERSION: usize = 4;

pub open spec fn inversion_rank(i: Inversion) -> nat {
    match i {
        Inversion::Root => 0,
        Inversion::First => 1,
        Inversion::Second => 2,
        Inversion::Third => 3,
        Inversion::Fourth => 4,
    }
}

/// How the chord tones are spread over the registers.
#[derive(Clone, Copy, Debug, PartialEq, Eq)]
pub enum Voicing {
    Close,
    Open,
    DropTwo,
    DropThree,
    TwoNote,
    ThreeNote,
    ShellThird,
    ShellSeventh,
    Quartal,
    Quintal,
}

/// How the chord tones are spread over time.
#[derive(Clone, Copy, Debug, PartialEq, Eq)]
pub enum TemporalStyle {
    Block,
    Broken,
    Arpeggio,
    Stride,
    BrokenTenth,
    Montuno,
}

/// A chord type.
#[derive(Clone, Copy, Debug, PartialEq, Eq, Structural)]
pub enum ChordQuality {
    Major,
    Minor,
    Diminished,
    Sus4,
    Dom7Sus4,
    Major7,
    MinorMajor7,
    Minor7,
    Dom7,
    Diminished7,
    Major7Sharp5,
    Dom7Sharp5,
    Augmented,
    Minor7Flat5,
    Major7Flat5,
    Add9,
    Major9,
    Dom9,
    MinorAdd9,
    MinorMajor7Add9,
    Minor9,
    Major7Sharp11,
    Major9Sharp11,
    Dom7Sharp11,
    Dom9Sharp11,
    Dom13,
    Dom9Thirteenth,
    Dom7Flat9,
    Dom7Flat13,
    Dom7Flat13Flat9,
    Dom11Flat13Flat9,
    Dom7Sharp9,
    Minor7Add11,
    Minor11,
}

/// Semitones above the root of each chord tone in root position, close voicing;
/// the root itself is not listed.
pub open spec fn chord_table(q: ChordQuality) -> Seq<u8> {
    match q {
        ChordQuality::Major => seq![4, 7],
        ChordQuality::Minor => seq![3, 7],
        ChordQuality::Diminished => seq![3, 6],
        ChordQuality::Sus4 => seq![5, 7],
        ChordQuality::Dom7Sus4 => seq![5, 7, 10],
        ChordQuality::Major7 => seq![4, 7, 11],
        ChordQuality::MinorMajor7 => seq![3, 7, 11],
        ChordQuality::Minor7 => seq![3, 7, 10],
        ChordQuality::Dom7 => seq![4, 7, 10],
        ChordQuality::Diminished7 => seq![3, 6, 9],
        ChordQuality::Major7Sharp5 => seq![4, 8, 11],
        ChordQuality::Dom7Sharp5 => seq![4, 8, 10],
        ChordQuality::Augmented => seq![4, 8],
        ChordQuality::Minor7Flat5 => seq![3, 6, 10],
        ChordQuality::Major7Flat5 => seq![4, 6, 10],
        ChordQuality::Add9 => seq![4, 7, 2],
        ChordQuality::Major9 => seq![4, 7, 11, 2],
        ChordQuality::Dom9 => seq![4, 7, 10, 2],
        ChordQuality::MinorAdd9 => seq![3, 7, 2],
        ChordQuality::MinorMajor7Add9 => seq![3, 7, 11, 2],
        ChordQuality::Minor9 => seq![3, 7, 10, 2],
        ChordQuality::Major7Sharp11 => seq![4, 7, 11, 6],
        ChordQuality::Major9Sharp11 => seq![4, 7, 11, 2, 6],
        ChordQuality::Dom7Sharp11 => seq![4, 7, 10, 6],
        ChordQuality::Dom9Sharp11 => seq![4, 7, 10, 2, 6],
        ChordQuality::Dom13 => seq![4, 7, 10, 9],
        ChordQuality::Dom9Thirteenth => seq![4, 7, 10, 2, 9],
        ChordQuality::Dom7Flat9 => seq![4, 7, 10, 1],
        ChordQuality::Dom7Flat13 => seq![4, 7, 10, 8],
        ChordQuality::Dom7Flat13Flat9 => seq![4, 7, 10, 1, 8],
        ChordQuality::Dom11Flat13Flat9 => seq![4, 7, 10, 1, 5, 8],
        ChordQuality::Dom7Sharp9 => seq![4, 7, 10, 3],
        ChordQuality::Minor7Add11 => seq![3, 7, 10, 5],
        ChordQuality::Minor11 => seq![3, 7, 10, 2, 5],
    }
}

impl ChordQuality {
    /// Semitones above the root of each chord tone in root position, close voicing.
    pub fn root_chord_interval(&self) -> (r: Vec<u8>)
        ensures
            r@ == chord_table(*self),
    {
        let r = match self {
            ChordQuality::Major => vec![4, 7],
            ChordQuality::Minor => vec![3, 7],
            ChordQuality::Diminished => vec![3, 6],
            ChordQuality::Sus4 => vec![5, 7],
            ChordQuality::Dom7Sus4 => vec![5, 7, 10],
            ChordQuality::Major7 => vec![4, 7, 11],
            ChordQuality::MinorMajor7 => vec![3, 7, 11],
            ChordQuality::Minor7 => vec![3, 7, 10],
            ChordQuality::Dom7 => vec![4, 7, 10],
            ChordQuality::Diminished7 => vec![3, 6, 9],
            ChordQuality::Major7Sharp5 => vec![4, 8, 11],
            ChordQuality::Dom7Sharp5 => vec![4, 8, 10],
            ChordQuality::Augmented => vec![4, 8],
            ChordQuality::Minor7Flat5 => vec![3, 6, 10],
            ChordQuality::Major7Flat5 => vec![4, 6, 10],
            ChordQuality::Add9 => vec![4, 7, 2],
            ChordQuality::Major9 => vec![4, 7, 11, 2],
            ChordQuality::Dom9 => vec![4, 7, 10, 2],
            ChordQuality::MinorAdd9 => vec![3, 7, 2],
            ChordQuality::MinorMajor7Add9 => vec![3, 7, 11, 2],
            ChordQuality::Minor9 => vec![3, 7, 10, 2],
            ChordQuality::Major7Sharp11 => vec![4, 7, 11, 6],
            ChordQuality::Major9Sharp11 => vec![4, 7, 11, 2, 6],
            ChordQuality::Dom7Sharp11 => vec![4, 7, 10, 6],
            ChordQuality::Dom9Sharp11 => vec![4, 7, 10, 2, 6],
            ChordQuality::Dom13 => vec![4, 7, 10, 9],
            ChordQuality::Dom9Thirteenth => vec![4, 7, 10, 2, 9],
            ChordQuality::Dom7Flat9 => vec![4, 7, 10, 1],
            ChordQuality::Dom7Flat13 => vec![4, 7, 10, 8],
            ChordQuality::Dom7Flat13Flat9 => vec![4, 7, 10, 1, 8],
            ChordQuality::Dom11Flat13Flat9 => vec![4, 7, 10, 1, 5, 8],
            ChordQuality::Dom7Sharp9 => vec![4, 7, 10, 3],
            ChordQuality::Minor7Add11 => vec![3, 7, 10, 5],
            ChordQuality::Minor11 => vec![3, 7, 10, 2, 5],
        };
        assert(r@ =~= chord_table(*self));
        r
    }
}

/// The sequence with its lowest tone moved up an octave to the top.
pub open spec fn raised_bass(r: Result<Seq<PitchOctave>>) -> Result<Seq<PitchOctave>> {
    match r {
        Err(e) => Err(e),
        Ok(s) => match transposed(s[0], IntervalType::Octave, true) {
            Err(e) => Err(e),
            Ok(top) => Ok(s.drop_first().push(top)),
        },
    }
}

/// The tones of a chord on `root` of quality `q` in inversion `inv`.
pub open spec fn chord_notes(root: PitchOctave, q: ChordQuality, inv: Inversion) -> Result<
    Seq<PitchOctave>,
>
    decreases inversion_rank(inv),
{
    match inv {
        Inversion::Root => match stacked(root, chord_table(q), true) {
            Err(e) => Err(e),
            Ok(s) => Ok(seq![root] + s),
        },
        Inversion::First => match stacked(root, chord_table(q), true) {
            Err(e) => Err(e),
            Ok(s) => match transposed(root, IntervalType::Octave, true) {
                Err(e) => Err(e),
                Ok(top) => Ok(s.push(top)),
            },
        },
        Inversion::Second => raised_bass(chord_notes(root, q, Inversion::First)),
        Inversion::Third => if chord_table(q).len() >= MINIMUM_LEN_THIRD_INVERSION {
            raised_bass(chord_notes(root, q, Inversion::Second))
        } else {
            Err(Error::InvalidInversion)
        },
        Inversion::Fourth => if chord_table(q).len() >= MINIMUM_LEN_FOURTH_INVERSION {
            raised_bass(chord_notes(root, q, Inversion::Second))
        } else {
            Err(Error::InvalidInversion)
        },
    }
}

/// Every chord tone lies within an octave of the root.
pub proof fn lemma_chord_table_within_octave(q: ChordQuality)
    ensures
        forall|k: int| 0 <= k < chord_table(q).len() ==> chord_table(q)[k] <= 12,
{
}

impl Chord {
    /// A chord in root position.
    pub fn new(root: PitchOctave, kind: ChordQuality) -> (r: Self)
        ensures
            r.root == root,
            r.kind == kind,
            r.inversion == Inversion::Root,
    {
        Self { root, kind, inversion: Inversion::Root }
    }

    pub fn new_as_inversion(root: PitchOctave, kind: ChordQuality, inversion: Inversion) -> (r:
        Self)
        ensures
            r.root == root,
            r.kind == kind,
            r.inversion == inversion,
    {
        Self { root, kind, inversion }
    }

    /// Moves the lowest tone up an octave to the top.
    fn raise_bass(chord: Pitches) -> (r: Result<Pitches>)
        requires
            chord@.len() > 0,
        ensures
            pitches_view(r) == raised_bass(Ok(chord@)),
            r matches Ok(p) ==> p@.len() == chord@.len(),
    {
        let mut tones = chord.0;
        let lowest = tones.remove(0);
        let top = lowest.checked_add(IntervalType::Octave)?;
        tones.push(top);
        assert(tones@ =~= chord@.drop_first().push(top));
        Ok(Pitches(tones))
    }

    /// The tones of this chord voiced in `inversion`, lowest first.
    pub fn gen_inversion(&self, inversion: Inversion) -> (r: Result<Pitches>)
        ensures
            pitches_view(r) == chord_notes(self.root, self.kind, inversion),
            r matches Ok(p) ==> p@.len() > 0,
        decreases inversion_rank(inversion),
    {
        let root_form = self.kind.root_chord_interval();
        proof {
            lemma_chord_table_within_octave(self.kind);
        }
        match inversion {
            Inversion::Root => {
                let mut chord = vec![self.root];
                assert(chord@ =~= seq![self.root]);
                push_stacked(self.root, &root_form, true, &mut chord)?;
                Ok(Pitches(chord))
            },
            Inversion::First => {
                let mut chord: Vec<PitchOctave> = Vec::new();
                push_stacked(self.root, &root_form, true, &mut chord)?;
                assert(chord@ =~= stacked(self.root, root_form@, true)->Ok_0);
                // the root, an octave up, becomes the top tone
                let top = self.root.checked_add(IntervalType::Octave)?;
                chord.push(top);
                Ok(Pitches(chord))
            },
            Inversion::Second => {
                let chord = self.gen_inversion(Inversion::First)?;
                Self::raise_bass(chord)
            },
            Inversion::Third => {
                if root_form.len() >= MINIMUM_LEN_THIRD_INVERSION {
                    let chord = self.gen_inversion(Inversion::Second)?;
                    Self::raise_bass(chord)
                } else {
                    Err(Error::InvalidInversion)
                }
            },
            Inversion::Fourth => {
                if root_form.len() >= MINIMUM_LEN_FOURTH_INVERSION {
                    let chord = self.gen_inversion(Inversion::Second)?;
                    Self::raise_bass(chord)
                } else {
                    Err(Error::InvalidInversion)
                }
            },
        }
    }
}

impl Notes for Chord {
    open spec fn spec_notes(&self) -> Result<Seq<PitchOctave>> {
        chord_notes(self.root, self.kind, self.inversion)
    }

    fn notes(&self) -> (r: Result<Pitches>) {
        self.gen_inversion(self.inversion)
    }
}

} // verus!
