//! Text forms: pitch names such as `F#3`, accidental numbers, and the names of
//! chord qualities, scale types, intervals and directions.
use crate::error::{Error, Result};
use crate::chord::ChordQuality;
use crate::interval::IntervalType;
use crate::pitch::{Alter, Octave, Pitch, PitchOctave, PitchOrder, Pitches, Step};
use crate::scale::ScaleType;
use vstd::prelude::*;

verus! {

pub open spec fn step_char(s: Step) -> char {
    match s {
        Step::C => 'C',
        Step::D => 'D',
        Step::E => 'E',
        Step::F => 'F',
        Step::G => 'G',
        Step::A => 'A',
        Step::B => 'B',
    }
}

/// Accidental text: `bb`, `b`, nothing, `#`, `##`.
pub open spec fn alter_text(a: Alter) -> Seq<char> {
    match a {
        Alter::DoubleFlat => seq!['b', 'b'],
        Alter::Flat => seq!['b'],
        Alter::Natural => Seq::empty(),
        Alter::Sharp => seq!['#'],
        Alter::DoubleSharp => seq!['#', '#'],
    }
}

/// The accidental's offset written as a number: `-2` to `2`.
pub open spec fn alter_number_text(a: Alter) -> Seq<char> {
    match a {
        Alter::DoubleFlat => seq!['-', '2'],
        Alter::Flat => seq!['-', '1'],
        Alter::Natural => seq!['0'],
        Alter::Sharp => seq!['1'],
        Alter::DoubleSharp => seq!['2'],
    }
}

pub open spec fn octave_char(o: Octave) -> char {
    match o {
        Octave::Octave0 => '0',
        Octave::Octave1 => '1',
        Octave::Octave2 => '2',
        Octave::Octave3 => '3',
        Octave::Octave4 => '4',
        Octave::Octave5 => '5',
        Octave::Octave6 => '6',
        Octave::Octave7 => '7',
        Octave::Octave8 => '8',
    }
}

/// A pitch written as its letter and accidental, such as `F#`.
pub open spec fn pitch_text(p: Pitch) -> Seq<char> {
    seq![step_char(p.step)] + alter_text(p.alter)
}

/// A pitch written with its octave digit, such as `F#3`.
pub open spec fn pitch_octave_text(p: PitchOctave) -> Seq<char> {
    pitch_text(p.pitch) + seq![octave_char(p.octave)]
}

/// The pitch written as `s`, if any.
pub open spec fn pitch_of_text(s: Seq<char>) -> Result<Pitch> {
    if exists|p: Pitch| pitch_text(p) == s {
        Ok(choose|p: Pitch| pitch_text(p) == s)
    } else {
        Err(Error::Parse)
    }
}

/// The pitch and octave written as `s`, if any.
pub open spec fn pitch_octave_of_text(s: Seq<char>) -> Result<PitchOctave> {
    if exists|p: PitchOctave| pitch_octave_text(p) == s {
        Ok(choose|p: PitchOctave| pitch_octave_text(p) == s)
    } else {
        Err(Error::Parse)
    }
}

proof fn lemma_alter_text(a: Alter, b: Alter)
    ensures
        alter_text(a).len() <= 2,
        alter_text(a) == alter_text(b) ==> a == b,
{
    if alter_text(a) == alter_text(b) {
        assert(alter_text(a).len() == alter_text(b).len());
        if alter_text(a).len() > 0 {
            assert(alter_text(a)[0] == alter_text(b)[0]);
        }
    }
}

/// Different pitches are written differently.
pub proof fn lemma_pitch_text_injective(p: Pitch, q: Pitch)
    ensures
        pitch_text(p) == pitch_text(q) ==> p == q,
        1 <= pitch_text(p).len() <= 3,
{
    lemma_alter_text(p.alter, q.alter);
    if pitch_text(p) == pitch_text(q) {
        assert(pitch_text(p)[0] == pitch_text(q)[0]);
        assert(alter_text(p.alter) =~= pitch_text(p).subrange(1, pitch_text(p).len() as int));
        assert(alter_text(q.alter) =~= pitch_text(q).subrange(1, pitch_text(q).len() as int));
    }
}

/// Different pitches with octave are written differently.
pub proof fn lemma_pitch_octave_text_injective(p: PitchOctave, q: PitchOctave)
    ensures
        pitch_octave_text(p) == pitch_octave_text(q) ==> p == q,
        2 <= pitch_octave_text(p).len() <= 4,
{
    lemma_pitch_text_injective(p.pitch, q.pitch);
    let s = pitch_octave_text(p);
    let t = pitch_octave_text(q);
    if s == t {
        assert(s[s.len() - 1] == t[t.len() - 1]);
        assert(pitch_text(p.pitch) =~= s.drop_last());
        assert(pitch_text(q.pitch) =~= t.drop_last());
    }
}

/// Reading back the text of a pitch with octave gives the same pitch.
pub proof fn lemma_parse_format(p: PitchOctave)
    ensures
        pitch_octave_of_text(pitch_octave_text(p)) == Ok::<PitchOctave, Error>(p),
{
    let s = pitch_octave_text(p);
    assert(exists|q: PitchOctave| pitch_octave_text(q) == s);
    let q = choose|q: PitchOctave| pitch_octave_text(q) == s;
    lemma_pitch_octave_text_injective(p, q);
}

/// Reading back the text of a pitch gives the same pitch.
pub proof fn lemma_parse_format_pitch(p: Pitch)
    ensures
        pitch_of_text(pitch_text(p)) == Ok::<Pitch, Error>(p),
{
    let s = pitch_text(p);
    assert(exists|q: Pitch| pitch_text(q) == s);
    let q = choose|q: Pitch| pitch_text(q) == s;
    lemma_pitch_text_injective(p, q);
}

fn step_of_char(c: char) -> (r: Option<Step>)
    ensures
        match r {
            Some(st) => step_char(st) == c,
            None => forall|st: Step| step_char(st) != c,
        },
{
    match c {
        'C' => Some(Step::C),
        'D' => Some(Step::D),
        'E' => Some(Step::E),
        'F' => Some(Step::F),
        'G' => Some(Step::G),
        'A' => Some(Step::A),
        'B' => Some(Step::B),
        _ => None,
    }
}

fn octave_of_char(c: char) -> (r: Option<Octave>)
    ensures
        match r {
            Some(o) => octave_char(o) == c,
            None => forall|o: Octave| octave_char(o) != c,
        },
{
    match c {
        '0' => Some(Octave::Octave0),
        '1' => Some(Octave::Octave1),
        '2' => Some(Octave::Octave2),
        '3' => Some(Octave::Octave3),
        '4' => Some(Octave::Octave4),
        '5' => Some(Octave::Octave5),
        '6' => Some(Octave::Octave6),
        '7' => Some(Octave::Octave7),
        '8' => Some(Octave::Octave8),
        _ => None,
    }
}

/// The accidental written as the characters `from..to` of `s`.
fn alter_of_chars(s: &str, from: usize, to: usize) -> (r: Option<Alter>)
    requires
        from <= to <= s@.len(),
    ensures
        match r {
            Some(a) => alter_text(a) == s@.subrange(from as int, to as int),
            None => forall|a: Alter| alter_text(a) != s@.subrange(from as int, to as int),
        },
{
    let ghost t = s@.subrange(from as int, to as int);
    let r = if to - from == 0 {
        Some(Alter::Natural)
    } else if to - from == 1 {
        let c = s.get_char(from);
        if c == 'b' {
            Some(Alter::Flat)
        } else if c == '#' {
            Some(Alter::Sharp)
        } else {
            None
        }
    } else if to - from == 2 {
        let c0 = s.get_char(from);
        let c1 = s.get_char(from + 1);
        if c0 == 'b' && c1 == 'b' {
            Some(Alter::DoubleFlat)
        } else if c0 == '#' && c1 == '#' {
            Some(Alter::DoubleSharp)
        } else {
            None
        }
    } else {
        None
    };
    proof {
        match r {
            Some(a) => {
                assert(alter_text(a) =~= t);
            },
            None => {
                assert forall|a: Alter| alter_text(a) != t by {
                    lemma_alter_text(a, a);
                    if alter_text(a) == t && t.len() > 0 {
                        assert(alter_text(a)[0] == t[0]);
                        assert(alter_text(a)[t.len() - 1] == t[t.len() - 1]);
                    }
                }
            },
        }
    }
    r
}

impl Step {
    /// The letter's name.
    pub fn to_string(&self) -> (r: String)
        ensures
            r@ == seq![step_char(*self)],
    {
        match self {
            Step::C => {
                proof {
                    reveal_strlit("C");
                }
                String::from_str("C")
            },
            Step::D => {
                proof {
                    reveal_strlit("D");
                }
                String::from_str("D")
            },
            Step::E => {
                proof {
                    reveal_strlit("E");
                }
                String::from_str("E")
            },
            Step::F => {
                proof {
                    reveal_strlit("F");
                }
                String::from_str("F")
            },
            Step::G => {
                proof {
                    reveal_strlit("G");
                }
                String::from_str("G")
            },
            Step::A => {
                proof {
                    reveal_strlit("A");
                }
                String::from_str("A")
            },
            Step::B => {
                proof {
                    reveal_strlit("B");
                }
                String::from_str("B")
            },
        }
    }

    /// The letter named `s`; anything else is `Parse`.
    pub fn from_str(s: &str) -> (r: Result<Step>)
        ensures
            match r {
                Ok(st) => seq![step_char(st)] == s@,
                Err(e) => e == Error::Parse && forall|st: Step| seq![step_char(st)] != s@,
            },
    {
        if s.unicode_len() != 1 {
            assert forall|st: Step| seq![step_char(st)] != s@ by {
                assert(seq![step_char(st)].len() == 1);
            }
            return Err(Error::Parse);
        }
        match step_of_char(s.get_char(0)) {
            Some(st) => {
                assert(seq![step_char(st)] =~= s@);
                Ok(st)
            },
            None => {
                assert forall|st: Step| seq![step_char(st)] != s@ by {
                    assert(seq![step_char(st)][0] == step_char(st));
                }
                Err(Error::Parse)
            },
        }
    }
}

impl Alter {
    /// The accidental's text: `bb`, `b`, nothing, `#` or `##`.
    pub fn to_string(&self) -> (r: String)
        ensures
            r@ == alter_text(*self),
    {
        match self {
            Alter::DoubleFlat => {
                proof {
                    reveal_strlit("bb");
                }
                String::from_str("bb")
            },
            Alter::Flat => {
                proof {
                    reveal_strlit("b");
                }
                String::from_str("b")
            },
            Alter::Natural => {
                proof {
                    reveal_strlit("");
                }
                String::from_str("")
            },
            Alter::Sharp => {
                proof {
                    reveal_strlit("#");
                }
                String::from_str("#")
            },
            Alter::DoubleSharp => {
                proof {
                    reveal_strlit("##");
                }
                String::from_str("##")
            },
        }
    }

    /// The accidental written as `s`; anything else is `Parse`.
    pub fn from_str(s: &str) -> (r: Result<Alter>)
        ensures
            match r {
                Ok(a) => alter_text(a) == s@,
                Err(e) => e == Error::Parse && forall|a: Alter| alter_text(a) != s@,
            },
    {
        let n = s.unicode_len();
        assert(s@.subrange(0, n as int) =~= s@);
        match alter_of_chars(s, 0, n) {
            Some(a) => Ok(a),
            None => Err(Error::Parse),
        }
    }

    /// The accidental's offset as a number: `-2` to `2`.
    pub fn to_num_string(&self) -> (r: String)
        ensures
            r@ == alter_number_text(*self),
    {
        match self {
            Alter::DoubleFlat => {
                proof {
                    reveal_strlit("-2");
                }
                String::from_str("-2")
            },
            Alter::Flat => {
                proof {
                    reveal_strlit("-1");
                }
                String::from_str("-1")
            },
            Alter::Natural => {
                proof {
                    reveal_strlit("0");
                }
                String::from_str("0")
            },
            Alter::Sharp => {
                proof {
                    reveal_strlit("1");
                }
                String::from_str("1")
            },
            Alter::DoubleSharp => {
                proof {
                    reveal_strlit("2");
                }
                String::from_str("2")
            },
        }
    }

    /// The accidental whose offset is written as `s`; anything else is `Parse`.
    pub fn from_num_string(s: &str) -> (r: Result<Alter>)
        ensures
            match r {
                Ok(a) => alter_number_text(a) == s@,
                Err(e) => e == Error::Parse && forall|a: Alter| alter_number_text(a) != s@,
            },
    {
        let n = s.unicode_len();
        let r = if n == 1 {
            let c = s.get_char(0);
            if c == '0' {
                Ok(Alter::Natural)
            } else if c == '1' {
                Ok(Alter::Sharp)
            } else if c == '2' {
                Ok(Alter::DoubleSharp)
            } else {
                Err(Error::Parse)
            }
        } else if n == 2 && s.get_char(0) == '-' {
            let c = s.get_char(1);
            if c == '1' {
                Ok(Alter::Flat)
            } else if c == '2' {
                Ok(Alter::DoubleFlat)
            } else {
                Err(Error::Parse)
            }
        } else {
            Err(Error::Parse)
        };
        proof {
            match r {
                Ok(a) => {
                    assert(alter_number_text(a) =~= s@);
                },
                Err(_) => {
                    assert forall|a: Alter| alter_number_text(a) != s@ by {
                        if alter_number_text(a) == s@ {
                            assert(alter_number_text(a)[0] == s@[0]);
                            assert(alter_number_text(a)[n - 1] == s@[n - 1]);
                        }
                    }
                },
            }
        }
        r
    }
}

impl Octave {
    /// The octave's digit.
    pub fn to_string(&self) -> (r: String)
        ensures
            r@ == seq![octave_char(*self)],
    {
        match self {
            Octave::Octave0 => {
                proof {
                    reveal_strlit("0");
                }
                String::from_str("0")
            },
            Octave::Octave1 => {
                proof {
                    reveal_strlit("1");
                }
                String::from_str("1")
            },
            Octave::Octave2 => {
                proof {
                    reveal_strlit("2");
                }
                String::from_str("2")
            },
            Octave::Octave3 => {
                proof {
                    reveal_strlit("3");
                }
                String::from_str("3")
            },
            Octave::Octave4 => {
                proof {
                    reveal_strlit("4");
                }
                String::from_str("4")
            },
            Octave::Octave5 => {
                proof {
                    reveal_strlit("5");
                }
                String::from_str("5")
            },
            Octave::Octave6 => {
                proof {
                    reveal_strlit("6");
                }
                String::from_str("6")
            },
            Octave::Octave7 => {
                proof {
                    reveal_strlit("7");
                }
                String::from_str("7")
            },
            Octave::Octave8 => {
                proof {
                    reveal_strlit("8");
                }
                String::from_str("8")
            },
        }
    }

    /// The octave written as the digit `s`; anything else is `Parse`.
    pub fn from_str(s: &str) -> (r: Result<Octave>)
        ensures
            match r {
                Ok(o) => seq![octave_char(o)] == s@,
                Err(e) => e == Error::Parse && forall|o: Octave| seq![octave_char(o)] != s@,
            },
    {
        if s.unicode_len() != 1 {
            assert forall|o: Octave| seq![octave_char(o)] != s@ by {
                assert(seq![octave_char(o)].len() == 1);
            }
            return Err(Error::Parse);
        }
        match octave_of_char(s.get_char(0)) {
            Some(o) => {
                assert(seq![octave_char(o)] =~= s@);
                Ok(o)
            },
            None => {
                assert forall|o: Octave| seq![octave_char(o)] != s@ by {
                    assert(seq![octave_char(o)][0] == octave_char(o));
                }
                Err(Error::Parse)
            },
        }
    }
}

impl Pitch {
    /// The pitch's text, such as `F#`.
    pub fn to_string(&self) -> (r: String)
        ensures
            r@ == pitch_text(*self),
    {
        let mut r = self.step.to_string();
        let a = self.alter.to_string();
        r.append(a.as_str());
        r
    }

    /// The pitch written as `s`: a letter and an accidental; anything else is `Parse`.
    pub fn from_str(s: &str) -> (r: Result<Pitch>)
        ensures
            r == pitch_of_text(s@),
    {
        let n = s.unicode_len();
        if n < 1 || n > 3 {
            proof {
                assert forall|q: Pitch| pitch_text(q) != s@ by {
                    lemma_pitch_text_injective(q, q);
                }
            }
            return Err(Error::Parse);
        }
        let step = match step_of_char(s.get_char(0)) {
            Some(st) => st,
            None => {
                proof {
                    assert forall|q: Pitch| pitch_text(q) != s@ by {
                        assert(pitch_text(q)[0] == step_char(q.step));
                    }
                }
                return Err(Error::Parse);
            },
        };
        let alter = match alter_of_chars(s, 1, n) {
            Some(a) => a,
            None => {
                proof {
                    assert forall|q: Pitch| pitch_text(q) != s@ by {
                        if pitch_text(q) == s@ {
                            assert(alter_text(q.alter) =~= s@.subrange(1, n as int));
                        }
                    }
                }
                return Err(Error::Parse);
            },
        };
        let p = Pitch { step, alter };
        proof {
            assert(pitch_text(p) =~= s@);
            let q = choose|q: Pitch| pitch_text(q) == s@;
            lemma_pitch_text_injective(p, q);
        }
        Ok(p)
    }
}

impl PitchOctave {
    /// The pitch's text with its octave digit, such as `F#3`.
    pub fn to_string(&self) -> (r: String)
        ensures
            r@ == pitch_octave_text(*self),
    {
        let mut r = self.pitch.to_string();
        let o = self.octave.to_string();
        r.append(o.as_str());
        r
    }

    /// The pitch's text without octave, such as `F#`.
    pub fn pitch_alter_string(self) -> (r: String)
        ensures
            r@ == pitch_text(self.pitch),
    {
        self.pitch.to_string()
    }

    /// The pitch written as `s`: a letter, an accidental and an octave digit from 0
    /// to 8; anything else is `Parse`.
    pub fn from_str(s: &str) -> (r: Result<PitchOctave>)
        ensures
            r == pitch_octave_of_text(s@),
    {
        let n = s.unicode_len();
        if n < 2 || n > 4 {
            proof {
                assert forall|q: PitchOctave| pitch_octave_text(q) != s@ by {
                    lemma_pitch_octave_text_injective(q, q);
                }
            }
            return Err(Error::Parse);
        }
        let step = match step_of_char(s.get_char(0)) {
            Some(st) => st,
            None => {
                proof {
                    assert forall|q: PitchOctave| pitch_octave_text(q) != s@ by {
                        assert(pitch_octave_text(q)[0] == step_char(q.pitch.step));
                    }
                }
                return Err(Error::Parse);
            },
        };
        let octave = match octave_of_char(s.get_char(n - 1)) {
            Some(o) => o,
            None => {
                proof {
                    assert forall|q: PitchOctave| pitch_octave_text(q) != s@ by {
                        let t = pitch_octave_text(q);
                        assert(t[t.len() - 1] == octave_char(q.octave));
                    }
                }
                return Err(Error::Parse);
            },
        };
        let alter = match alter_of_chars(s, 1, n - 1) {
            Some(a) => a,
            None => {
                proof {
                    assert forall|q: PitchOctave| pitch_octave_text(q) != s@ by {
                        if pitch_octave_text(q) == s@ {
                            lemma_alter_text(q.pitch.alter, q.pitch.alter);
                            assert(alter_text(q.pitch.alter) =~= s@.subrange(1, n - 1));
                        }
                    }
                }
                return Err(Error::Parse);
            },
        };
        let p = PitchOctave { pitch: Pitch { step, alter }, octave };
        proof {
            assert(pitch_octave_text(p) =~= s@);
            let q = choose|q: PitchOctave| pitch_octave_text(q) == s@;
            lemma_pitch_octave_text_injective(p, q);
        }
        Ok(p)
    }
}

/// The texts of the pitches in order, separated by single spaces.
pub open spec fn pitches_text(ps: Seq<PitchOctave>) -> Seq<char>
    decreases ps.len(),
{
    if ps.len() == 0 {
        Seq::empty()
    } else if ps.len() == 1 {
        pitch_octave_text(ps[0])
    } else {
        pitches_text(ps.drop_last()) + seq![' '] + pitch_octave_text(ps.last())
    }
}

impl Pitches {
    /// The pitches' texts in order, separated by single spaces, such as `C4 E4 G4`.
    pub fn to_string(&self) -> (r: String)
        ensures
            r@ == pitches_text(self@),
    {
        let mut r = String::new();
        let n = self.0.len();
        let mut i: usize = 0;
        while i < n
            invariant
                n == self@.len(),
                i <= n,
                r@ == pitches_text(self@.take(i as int)),
            decreases n - i,
        {
            let ghost next = self@.take(i + 1);
            assert(next.drop_last() =~= self@.take(i as int));
            assert(next.last() == self@[i as int]);
            proof {
                reveal_strlit(" ");
            }
            if i > 0 {
                r.append(" ");
            }
            let t = self.0[i].to_string();
            r.append(t.as_str());
            assert(r@ =~= pitches_text(next));
            i = i + 1;
        }
        assert(self@.take(n as int) =~= self@);
        r
    }
}

/// Whether `s` and `t` hold the same characters.
fn text_is(s: &str, t: &str) -> (r: bool)
    ensures
        r == (s@ == t@),
{
    let n = s.unicode_len();
    if n != t.unicode_len() {
        return false;
    }
    let mut i: usize = 0;
    while i < n
        invariant
            n == s@.len(),
            n == t@.len(),
            i <= n,
            forall|j: int| 0 <= j < i ==> s@[j] == t@[j],
        decreases n - i,
    {
        if s.get_char(i) != t.get_char(i) {
            return false;
        }
        i = i + 1;
    }
    assert(s@ =~= t@);
    true
}

/// The name of each chord quality, as written in text.
pub open spec fn chord_quality_name(x: ChordQuality) -> Seq<char> {
    match x {
        ChordQuality::Major => "Major"@,
        ChordQuality::Minor => "Minor"@,
        ChordQuality::Diminished => "Diminished"@,
        ChordQuality::Sus4 => "Sus4"@,
        ChordQuality::Dom7Sus4 => "Dom7Sus4"@,
        ChordQuality::Major7 => "Major7"@,
        ChordQuality::MinorMajor7 => "MinorMajor7"@,
        ChordQuality::Minor7 => "Minor7"@,
        ChordQuality::Dom7 => "Dom7"@,
        ChordQuality::Diminished7 => "Diminished7"@,
        ChordQuality::Major7Sharp5 => "Major7Sharp5"@,
        ChordQuality::Dom7Sharp5 => "Dom7Sharp5"@,
        ChordQuality::Augmented => "Augmented"@,
        ChordQuality::Minor7Flat5 => "Minor7Flat5"@,
        ChordQuality::Major7Flat5 => "Major7Flat5"@,
        ChordQuality::Add9 => "Add9"@,
        ChordQuality::Major9 => "Major9"@,
        ChordQuality::Dom9 => "Dom9"@,
        ChordQuality::MinorAdd9 => "MinorAdd9"@,
        ChordQuality::MinorMajor7Add9 => "MinorMajor7Add9"@,
        ChordQuality::Minor9 => "Minor9"@,
        ChordQuality::Major7Sharp11 => "Major7Sharp11"@,
        ChordQuality::Major9Sharp11 => "Major9Sharp11"@,
        ChordQuality::Dom7Sharp11 => "Dom7Sharp11"@,
        ChordQuality::Dom9Sharp11 => "Dom9Sharp11"@,
        ChordQuality::Dom13 => "Dom13"@,
        ChordQuality::Dom9Thirteenth => "Dom9Thirteenth"@,
        ChordQuality::Dom7Flat9 => "Dom7Flat9"@,
        ChordQuality::Dom7Flat13 => "Dom7Flat13"@,
        ChordQuality::Dom7Flat13Flat9 => "Dom7Flat13Flat9"@,
        ChordQuality::Dom11Flat13Flat9 => "Dom11Flat13Flat9"@,
        ChordQuality::Dom7Sharp9 => "Dom7Sharp9"@,
        ChordQuality::Minor7Add11 => "Minor7Add11"@,
        ChordQuality::Minor11 => "Minor11"@,
    }
}

impl ChordQuality {
    /// The chord quality named exactly `s`; any other text is `Parse`.
    pub fn from_str(s: &str) -> (r: Result<ChordQuality>)
        ensures
            match r {
                Ok(x) => chord_quality_name(x) == s@,
                Err(e) => e == Error::Parse && forall|x: ChordQuality| chord_quality_name(x) != s@,
            },
    {
        if text_is(s, "Major") {
            Ok(ChordQuality::Major)
        } else if text_is(s, "Minor") {
            Ok(ChordQuality::Minor)
        } else if text_is(s, "Diminished") {
            Ok(ChordQuality::Diminished)
        } else if text_is(s, "Sus4") {
            Ok(ChordQuality::Sus4)
        } else if text_is(s, "Dom7Sus4") {
            Ok(ChordQuality::Dom7Sus4)
        } else if text_is(s, "Major7") {
            Ok(ChordQuality::Major7)
        } else if text_is(s, "MinorMajor7") {
            Ok(ChordQuality::MinorMajor7)
        } else if text_is(s, "Minor7") {
            Ok(ChordQuality::Minor7)
        } else if text_is(s, "Dom7") {
            Ok(ChordQuality::Dom7)
        } else if text_is(s, "Diminished7") {
            Ok(ChordQuality::Diminished7)
        } else if text_is(s, "Major7Sharp5") {
            Ok(ChordQuality::Major7Sharp5)
        } else if text_is(s, "Dom7Sharp5") {
            Ok(ChordQuality::Dom7Sharp5)
        } else if text_is(s, "Augmented") {
            Ok(ChordQuality::Augmented)
        } else if text_is(s, "Minor7Flat5") {
            Ok(ChordQuality::Minor7Flat5)
        } else if text_is(s, "Major7Flat5") {
            Ok(ChordQuality::Major7Flat5)
        } else if text_is(s, "Add9") {
            Ok(ChordQuality::Add9)
        } else if text_is(s, "Major9") {
            Ok(ChordQuality::Major9)
        } else if text_is(s, "Dom9") {
            Ok(ChordQuality::Dom9)
        } else if text_is(s, "MinorAdd9") {
            Ok(ChordQuality::MinorAdd9)
        } else if text_is(s, "MinorMajor7Add9") {
            Ok(ChordQuality::MinorMajor7Add9)
        } else if text_is(s, "Minor9") {
            Ok(ChordQuality::Minor9)
        } else if text_is(s, "Major7Sharp11") {
            Ok(ChordQuality::Major7Sharp11)
        } else if text_is(s, "Major9Sharp11") {
            Ok(ChordQuality::Major9Sharp11)
        } else if text_is(s, "Dom7Sharp11") {
            Ok(ChordQuality::Dom7Sharp11)
        } else if text_is(s, "Dom9Sharp11") {
            Ok(ChordQuality::Dom9Sharp11)
        } else if text_is(s, "Dom13") {
            Ok(ChordQuality::Dom13)
        } else if text_is(s, "Dom9Thirteenth") {
            Ok(ChordQuality::Dom9Thirteenth)
        } else if text_is(s, "Dom7Flat9") {
            Ok(ChordQuality::Dom7Flat9)
        } else if text_is(s, "Dom7Flat13") {
            Ok(ChordQuality::Dom7Flat13)
        } else if text_is(s, "Dom7Flat13Flat9") {
            Ok(ChordQuality::Dom7Flat13Flat9)
        } else if text_is(s, "Dom11Flat13Flat9") {
            Ok(ChordQuality::Dom11Flat13Flat9)
        } else if text_is(s, "Dom7Sharp9") {
            Ok(ChordQuality::Dom7Sharp9)
        } else if text_is(s, "Minor7Add11") {
            Ok(ChordQuality::Minor7Add11)
        } else if text_is(s, "Minor11") {
            Ok(ChordQuality::Minor11)
        } else {
            Err(Error::Parse)
        }
    }
}

/// The name of each scale type, as written in text.
pub open spec fn scale_type_name(x: ScaleType) -> Seq<char> {
    match x {
        ScaleType::Chromatic => "Chromatic"@,
        ScaleType::Blues => "Blues"@,
        ScaleType::Augmented => "Augmented"@,
        ScaleType::Altered => "Altered"@,
        ScaleType::AlteredFlat7 => "AlteredFlat7"@,
        ScaleType::Ionian => "Ionian"@,
        ScaleType::IonianAug => "IonianAug"@,
        ScaleType::Dorian => "Dorian"@,
        ScaleType::DorianFlat2 => "DorianFlat2"@,
        ScaleType::DorianSharp4 => "DorianSharp4"@,
        ScaleType::Phrygian => "Phrygian"@,
        ScaleType::Lydian => "Lydian"@,
        ScaleType::LydianMinor => "LydianMinor"@,
        ScaleType::Mixolydian => "Mixolydian"@,
        ScaleType::Aeolian => "Aeolian"@,
        ScaleType::AeolianSharp7 => "AeolianSharp7"@,
        ScaleType::MelodicMinor => "MelodicMinor"@,
        ScaleType::Locrian => "Locrian"@,
        ScaleType::LocrianTwo => "LocrianTwo"@,
        ScaleType::LocrianSix => "LocrianSix"@,
        ScaleType::LeadingWholeTone => "LeadingWholeTone"@,
        ScaleType::WholeTone => "WholeTone"@,
        ScaleType::PentatonicMinor => "PentatonicMinor"@,
        ScaleType::PentatonicMajor => "PentatonicMajor"@,
    }
}

impl ScaleType {
    /// The scale type named exactly `s`; any other text is `Parse`.
    pub fn from_str(s: &str) -> (r: Result<ScaleType>)
        ensures
            match r {
                Ok(x) => scale_type_name(x) == s@,
                Err(e) => e == Error::Parse && forall|x: ScaleType| scale_type_name(x) != s@,
            },
    {
        if text_is(s, "Chromatic") {
            Ok(ScaleType::Chromatic)
        } else if text_is(s, "Blues") {
            Ok(ScaleType::Blues)
        } else if text_is(s, "Augmented") {
            Ok(ScaleType::Augmented)
        } else if text_is(s, "Altered") {
            Ok(ScaleType::Altered)
        } else if text_is(s, "AlteredFlat7") {
            Ok(ScaleType::AlteredFlat7)
        } else if text_is(s, "Ionian") {
            Ok(ScaleType::Ionian)
        } else if text_is(s, "IonianAug") {
            Ok(ScaleType::IonianAug)
        } else if text_is(s, "Dorian") {
            Ok(ScaleType::Dorian)
        } else if text_is(s, "DorianFlat2") {
            Ok(ScaleType::DorianFlat2)
        } else if text_is(s, "DorianSharp4") {
            Ok(ScaleType::DorianSharp4)
        } else if text_is(s, "Phrygian") {
            Ok(ScaleType::Phrygian)
        } else if text_is(s, "Lydian") {
            Ok(ScaleType::Lydian)
        } else if text_is(s, "LydianMinor") {
            Ok(ScaleType::LydianMinor)
        } else if text_is(s, "Mixolydian") {
            Ok(ScaleType::Mixolydian)
        } else if text_is(s, "Aeolian") {
            Ok(ScaleType::Aeolian)
        } else if text_is(s, "AeolianSharp7") {
            Ok(ScaleType::AeolianSharp7)
        } else if text_is(s, "MelodicMinor") {
            Ok(ScaleType::MelodicMinor)
        } else if text_is(s, "Locrian") {
            Ok(ScaleType::Locrian)
        } else if text_is(s, "LocrianTwo") {
            Ok(ScaleType::LocrianTwo)
        } else if text_is(s, "LocrianSix") {
            Ok(ScaleType::LocrianSix)
        } else if text_is(s, "LeadingWholeTone") {
            Ok(ScaleType::LeadingWholeTone)
        } else if text_is(s, "WholeTone") {
            Ok(ScaleType::WholeTone)
        } else if text_is(s, "PentatonicMinor") {
            Ok(ScaleType::PentatonicMinor)
        } else if text_is(s, "PentatonicMajor") {
            Ok(ScaleType::PentatonicMajor)
        } else {
            Err(Error::Parse)
        }
    }
}

/// The name of each interval, as written in text.
pub open spec fn interval_type_name(x: IntervalType) -> Seq<char> {
    match x {
        IntervalType::Unison => "Unison"@,
        IntervalType::DiminishedSecond => "DiminishedSecond"@,
        IntervalType::MinorSecond => "MinorSecond"@,
        IntervalType::MajorSecond => "MajorSecond"@,
        IntervalType::DiminishedThird => "DiminishedThird"@,
        IntervalType::AugmentedSecond => "AugmentedSecond"@,
        IntervalType::MinorThird => "MinorThird"@,
        IntervalType::MajorThird => "MajorThird"@,
        IntervalType::DiminishedFourth => "DiminishedFourth"@,
        IntervalType::AugmentedThird => "AugmentedThird"@,
        IntervalType::Fourth => "Fourth"@,
        IntervalType::AugmentedFourth => "AugmentedFourth"@,
        IntervalType::DiminishedFifth => "DiminishedFifth"@,
        IntervalType::Fifth => "Fifth"@,
        IntervalType::DiminishedSixth => "DiminishedSixth"@,
        IntervalType::AugmentedFifth => "AugmentedFifth"@,
        IntervalType::MinorSixth => "MinorSixth"@,
        IntervalType::MajorSixth => "MajorSixth"@,
        IntervalType::DiminishedSeventh => "DiminishedSeventh"@,
        IntervalType::AugmentedSixth => "AugmentedSixth"@,
        IntervalType::MinorSeventh => "MinorSeventh"@,
        IntervalType::MajorSeventh => "MajorSeventh"@,
        IntervalType::DiminishedEighth => "DiminishedEighth"@,
        IntervalType::AugmentedSeventh => "AugmentedSeventh"@,
        IntervalType::Octave => "Octave"@,
    }
}

impl IntervalType {
    /// The interval named exactly `s`; any other text is `Parse`.
    pub fn from_str(s: &str) -> (r: Result<IntervalType>)
        ensures
            match r {
                Ok(x) => interval_type_name(x) == s@,
                Err(e) => e == Error::Parse && forall|x: IntervalType| interval_type_name(x) != s@,
            },
    {
        if text_is(s, "Unison") {
            Ok(IntervalType::Unison)
        } else if text_is(s, "DiminishedSecond") {
            Ok(IntervalType::DiminishedSecond)
        } else if text_is(s, "MinorSecond") {
            Ok(IntervalType::MinorSecond)
        } else if text_is(s, "MajorSecond") {
            Ok(IntervalType::MajorSecond)
        } else if text_is(s, "DiminishedThird") {
            Ok(IntervalType::DiminishedThird)
        } else if text_is(s, "AugmentedSecond") {
            Ok(IntervalType::AugmentedSecond)
        } else if text_is(s, "MinorThird") {
            Ok(IntervalType::MinorThird)
        } else if text_is(s, "MajorThird") {
            Ok(IntervalType::MajorThird)
        } else if text_is(s, "DiminishedFourth") {
            Ok(IntervalType::DiminishedFourth)
        } else if text_is(s, "AugmentedThird") {
            Ok(IntervalType::AugmentedThird)
        } else if text_is(s, "Fourth") {
            Ok(IntervalType::Fourth)
        } else if text_is(s, "AugmentedFourth") {
            Ok(IntervalType::AugmentedFourth)
        } else if text_is(s, "DiminishedFifth") {
            Ok(IntervalType::DiminishedFifth)
        } else if text_is(s, "Fifth") {
            Ok(IntervalType::Fifth)
        } else if text_is(s, "DiminishedSixth") {
            Ok(IntervalType::DiminishedSixth)
        } else if text_is(s, "AugmentedFifth") {
            Ok(IntervalType::AugmentedFifth)
        } else if text_is(s, "MinorSixth") {
            Ok(IntervalType::MinorSixth)
        } else if text_is(s, "MajorSixth") {
            Ok(IntervalType::MajorSixth)
        } else if text_is(s, "DiminishedSeventh") {
            Ok(IntervalType::DiminishedSeventh)
        } else if text_is(s, "AugmentedSixth") {
            Ok(IntervalType::AugmentedSixth)
        } else if text_is(s, "MinorSeventh") {
            Ok(IntervalType::MinorSeventh)
        } else if text_is(s, "MajorSeventh") {
            Ok(IntervalType::MajorSeventh)
        } else if text_is(s, "DiminishedEighth") {
            Ok(IntervalType::DiminishedEighth)
        } else if text_is(s, "AugmentedSeventh") {
            Ok(IntervalType::AugmentedSeventh)
        } else if text_is(s, "Octave") {
            Ok(IntervalType::Octave)
        } else {
            Err(Error::Parse)
        }
    }
}

/// The name of each direction, as written in text.
pub open spec fn pitch_order_name(x: PitchOrder) -> Seq<char> {
    match x {
        PitchOrder::Ascending => "Ascending"@,
        PitchOrder::Descending => "Descending"@,
    }
}

impl PitchOrder {
    /// The direction named exactly `s`; any other text is `Parse`.
    pub fn from_str(s: &str) -> (r: Result<PitchOrder>)
        ensures
            match r {
                Ok(x) => pitch_order_name(x) == s@,
                Err(e) => e == Error::Parse && forall|x: PitchOrder| pitch_order_name(x) != s@,
            },
    {
        if text_is(s, "Ascending") {
            Ok(PitchOrder::Ascending)
        } else if text_is(s, "Descending") {
            Ok(PitchOrder::Descending)
        } else {
            Err(Error::Parse)
        }
    }
}

} // verus!
