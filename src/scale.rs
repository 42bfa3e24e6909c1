//! Scales: degree tables and ascending or descending generation.
use crate::error::Result;
use crate::interval::{push_stacked, stacked, IntervalType};
use crate::notes::Notes;
use crate::pitch::{pitches_view, transposed, PitchOctave, PitchOrder, Pitches};
use vstd::prelude::*;

verus! {

/// A scale: a tonic, a scale type and the direction in which it is played.
pub struct Scale {
    pub tonic: PitchOctave,
    pub kind: ScaleType,
    pub pitch_order: PitchOrder,
}

/// A scale type.
#[derive(Clone, Copy, Debug, PartialEq, Eq, Structural)]
pub enum ScaleType {
    Chromatic,
    Blues,
    Augmented,
    Altered,
    AlteredFlat7,
    Ionian,
    IonianAug,
    Dorian,
    DorianFlat2,
    DorianSharp4,
    Phrygian,
    Lydian,
    LydianMinor,
    Mixolydian,
    Aeolian,
    AeolianSharp7,
    MelodicMinor,
    Locrian,
    LocrianTwo,
    LocrianSix,
    LeadingWholeTone,
    WholeTone,
    PentatonicMinor,
    PentatonicMajor,
}

/// Semitones above the tonic of each degree, without the tonic and its octave.
/// Types without a table of their own use the Ionian one.
pub open spec fn scale_table(t: ScaleType) -> Seq<u8> {
    match t {
        ScaleType::Chromatic => seq![2, 3, 4, 5, 6, 7, 8, 9, 10, 11],
        ScaleType::Aeolian => seq![2, 3, 5, 7, 8, 10],
        _ => seq![2, 4, 5, 7, 9, 11],
    }
}

/// The degrees seen from the octave above, walked downward: each offset `o`, taken
/// from the top of the table, becomes `12 - o`.
pub open spec fn mirrored(table: Seq<u8>) -> Seq<u8> {
    Seq::new(table.len(), |k: int| (12 - table[table.len() - 1 - k]) as u8)
}

/// The tones of a scale on `tonic`: the tonic, each degree, then the tonic an
/// octave away, all upward or all downward.
pub open spec fn scale_notes(tonic: PitchOctave, t: ScaleType, order: PitchOrder) -> Result<
    Seq<PitchOctave>,
> {
    let up = order == PitchOrder::Ascending;
    let offsets = if up {
        scale_table(t)
    } else {
        mirrored(scale_table(t))
    };
    match stacked(tonic, offsets, up) {
        Err(e) => Err(e),
        Ok(s) => match transposed(tonic, IntervalType::Octave, up) {
            Err(e) => Err(e),
            Ok(last) => Ok(seq![tonic] + s.push(last)),
        },
    }
}

impl ScaleType {
    /// Semitones above the tonic of each degree, without the tonic and its octave.
    pub fn scale_interval(&self) -> (r: Vec<u8>)
        ensures
            r@ == scale_table(*self),
            forall|k: int| 0 <= k < r@.len() ==> 0 < #[trigger] r@[k] && r@[k] <= 12,
    {
        let r = match self {
            ScaleType::Chromatic => vec![2, 3, 4, 5, 6, 7, 8, 9, 10, 11],
            ScaleType::Aeolian => vec![2, 3, 5, 7, 8, 10],
            _ => vec![2, 4, 5, 7, 9, 11],
        };
        assert(r@ =~= scale_table(*self));
        r
    }
}

/// The degree offsets, walked down from the octave above the tonic.
fn mirror(table: &Vec<u8>) -> (r: Vec<u8>)
    requires
        forall|k: int| 0 <= k < table@.len() ==> 0 < #[trigger] table@[k] && table@[k] <= 12,
    ensures
        r@ == mirrored(table@),
        forall|k: int| 0 <= k < r@.len() ==> r@[k] <= 12,
{
    let mut r: Vec<u8> = Vec::new();
    let n = table.len();
    let mut k: usize = 0;
    while k < n
        invariant
            n == table@.len(),
            k <= n,
            forall|j: int| 0 <= j < table@.len() ==> 0 < #[trigger] table@[j] && table@[j] <= 12,
            r@ =~= mirrored(table@).take(k as int),
        decreases n - k,
    {
        r.push(12 - table[n - 1 - k]);
        k = k + 1;
    }
    r
}

impl Scale {
    /// An ascending scale.
    pub fn new(tonic: PitchOctave, kind: ScaleType) -> (r: Self)
        ensures
            r.tonic == tonic,
            r.kind == kind,
            r.pitch_order == PitchOrder::Ascending,
    {
        Self { tonic, kind, pitch_order: PitchOrder::Ascending }
    }

    pub fn new_with_order(tonic: PitchOctave, kind: ScaleType, pitch_order: PitchOrder) -> (r:
        Self)
        ensures
            r.tonic == tonic,
            r.kind == kind,
            r.pitch_order == pitch_order,
    {
        Self { tonic, kind, pitch_order }
    }

    /// The tones of this scale in its direction, from the tonic to its octave.
    pub fn gen_notes(&self) -> (r: Result<Pitches>)
        ensures
            pitches_view(r) == scale_notes(self.tonic, self.kind, self.pitch_order),
    {
        let intervals = self.kind.scale_interval();
        let mut scale = vec![self.tonic];
        assert(scale@ =~= seq![self.tonic]);
        match self.pitch_order {
            PitchOrder::Ascending => {
                push_stacked(self.tonic, &intervals, true, &mut scale)?;
                let last = self.tonic.checked_add(IntervalType::Octave)?;
                scale.push(last);
                assert(scale@ =~= seq![self.tonic] + stacked(self.tonic, intervals@, true)->Ok_0.push(last));
            },
            PitchOrder::Descending => {
                let offsets = mirror(&intervals);
                push_stacked(self.tonic, &offsets, false, &mut scale)?;
                let last = self.tonic.checked_sub(IntervalType::Octave)?;
                scale.push(last);
                assert(scale@ =~= seq![self.tonic] + stacked(self.tonic, offsets@, false)->Ok_0.push(last));
            },
        }
        Ok(Pitches(scale))
    }
}

impl Notes for Scale {
    open spec fn spec_notes(&self) -> Result<Seq<PitchOctave>> {
        scale_notes(self.tonic, self.kind, self.pitch_order)
    }

    fn notes(&self) -> (r: Result<Pitches>) {
        self.gen_notes()
    }
}

} // verus!
