use mulib::chord::ChordQuality;
use mulib::error::Error;
use mulib::interval::IntervalType;
use mulib::pitch::{Alter, Octave, Pitch, PitchOctave, PitchOrder, Step};
use mulib::scale::ScaleType;

#[test]
fn pitch_octave_round_trip() {
    for s in ["C4", "F#3", "Bbb5", "G##0", "Eb8", "A7"] {
        let p = PitchOctave::from_str(s).unwrap();
        assert_eq!(p.to_string(), s);
        assert_eq!(PitchOctave::from_str(p.to_string().as_str()), Ok(p));
    }
    let p = PitchOctave::from_str("Bbb5").unwrap();
    assert_eq!(p.pitch.step, Step::B);
    assert_eq!(p.pitch.alter, Alter::DoubleFlat);
    assert_eq!(p.octave, Octave::Octave5);
    assert_eq!(p.pitch_alter_string(), "Bbb");
}

#[test]
fn pitch_octave_parse_errors() {
    for s in ["", "C", "H4", "C9", "C#b4", "Cx4", "C#445", "c4", "4C"] {
        assert_eq!(PitchOctave::from_str(s), Err(Error::Parse));
    }
}

#[test]
fn pitch_text() {
    let p = Pitch::from_str("F#").unwrap();
    assert_eq!(p, Pitch { step: Step::F, alter: Alter::Sharp });
    assert_eq!(p.to_string(), "F#");
    assert_eq!(Pitch::from_str("E"), Ok(Pitch { step: Step::E, alter: Alter::Natural }));
    assert_eq!(Pitch::from_str("Ab#"), Err(Error::Parse));
    assert_eq!(Pitch::from_str(""), Err(Error::Parse));
}

#[test]
fn component_text() {
    assert_eq!(Step::from_str("G"), Ok(Step::G));
    assert_eq!(Step::from_str("GG"), Err(Error::Parse));
    assert_eq!(Step::A.to_string(), "A");
    assert_eq!(Alter::from_str("##"), Ok(Alter::DoubleSharp));
    assert_eq!(Alter::from_str(""), Ok(Alter::Natural));
    assert_eq!(Alter::from_str("b#"), Err(Error::Parse));
    assert_eq!(Alter::Flat.to_string(), "b");
    assert_eq!(Octave::from_str("8"), Ok(Octave::Octave8));
    assert_eq!(Octave::from_str("9"), Err(Error::Parse));
    assert_eq!(Octave::Octave0.to_string(), "0");
}

#[test]
fn alter_numbers() {
    assert_eq!(Alter::from_num_string("-2"), Ok(Alter::DoubleFlat));
    assert_eq!(Alter::from_num_string("-1"), Ok(Alter::Flat));
    assert_eq!(Alter::from_num_string("0"), Ok(Alter::Natural));
    assert_eq!(Alter::from_num_string("2"), Ok(Alter::DoubleSharp));
    assert_eq!(Alter::from_num_string("3"), Err(Error::Parse));
    assert_eq!(Alter::from_num_string("-0"), Err(Error::Parse));
    assert_eq!(Alter::Sharp.to_num_string(), "1");
    assert_eq!(Alter::DoubleFlat.to_num_string(), "-2");
}

#[test]
fn enumerated_names() {
    assert_eq!(ChordQuality::from_str("Major7"), Ok(ChordQuality::Major7));
    assert_eq!(ChordQuality::from_str("Dom7Flat9"), Ok(ChordQuality::Dom7Flat9));
    assert_eq!(ChordQuality::from_str("major7"), Err(Error::Parse));
    assert_eq!(ScaleType::from_str("Dorian"), Ok(ScaleType::Dorian));
    assert_eq!(ScaleType::from_str("Doria"), Err(Error::Parse));
    assert_eq!(IntervalType::from_str("MinorThird"), Ok(IntervalType::MinorThird));
    assert_eq!(IntervalType::from_str("Third"), Err(Error::Parse));
    assert_eq!(PitchOrder::from_str("Ascending"), Ok(PitchOrder::Ascending));
    assert_eq!(PitchOrder::from_str("Descending"), Ok(PitchOrder::Descending));
    assert_eq!(PitchOrder::from_str("Up"), Err(Error::Parse));
}

#[test]
fn error_messages() {
    assert_eq!(Error::OutofBounds.message(), "Data Out of Bounds");
    assert_eq!(Error::InvalidInversion.message(), "Inversion not supported for Chord Type");
    assert_eq!(Error::Parse.message(), "Parsing Error");
}
