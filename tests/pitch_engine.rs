use mulib::error::Error;
use mulib::interval::IntervalType;
use mulib::pitch::{AccidentalSpelling, Alter, Octave, Pitch, PitchOctave, Step};

fn po(s: &str) -> PitchOctave {
    PitchOctave::from_str(s).unwrap()
}

fn text(r: Result<PitchOctave, Error>) -> String {
    r.unwrap().to_string()
}

#[test]
fn test_semitone_convert() {
    let pitch = PitchOctave::new_from_semitone(49, AccidentalSpelling::Flat);
    println!("{:?}", pitch);

    assert_eq!(true, true);
    assert_eq!(text(pitch), "Db3");
}

#[test]
fn new_from_semitone_spells_naturals_and_preference() {
    assert_eq!(text(PitchOctave::new_from_semitone(60, AccidentalSpelling::Sharp)), "C4");
    assert_eq!(text(PitchOctave::new_from_semitone(61, AccidentalSpelling::Sharp)), "C#4");
    assert_eq!(text(PitchOctave::new_from_semitone(61, AccidentalSpelling::Flat)), "Db4");
    assert_eq!(text(PitchOctave::new_from_semitone(12, AccidentalSpelling::Flat)), "C0");
    assert_eq!(text(PitchOctave::new_from_semitone(96, AccidentalSpelling::Flat)), "C7");
}

#[test]
fn new_from_semitone_rejects_values_out_of_range() {
    assert_eq!(PitchOctave::new_from_semitone(11, AccidentalSpelling::Flat), Err(Error::OutofBounds));
    assert_eq!(PitchOctave::new_from_semitone(97, AccidentalSpelling::Flat), Err(Error::OutofBounds));
    assert_eq!(PitchOctave::new_from_semitone(-5, AccidentalSpelling::Sharp), Err(Error::OutofBounds));
}

#[test]
fn semitone_value_of_pitches() {
    assert_eq!(po("C4").get_semitone_value(), Ok(60));
    assert_eq!(po("Bbb5").get_semitone_value(), Ok(81));
    assert_eq!(po("C0").get_semitone_value(), Ok(12));
    assert_eq!(po("Cb0").get_semitone_value(), Err(Error::OutofBounds));
    assert_eq!(po("C#7").get_semitone_value(), Err(Error::OutofBounds));
}

#[test]
fn calculate_octave_from_semitones() {
    assert_eq!(PitchOctave::calculate_octave(12), Octave::Octave0);
    assert_eq!(PitchOctave::calculate_octave(59), Octave::Octave3);
    assert_eq!(PitchOctave::calculate_octave(60), Octave::Octave4);
    assert_eq!(PitchOctave::calculate_octave(107), Octave::Octave7);
    assert_eq!(PitchOctave::calculate_octave(119), Octave::Octave8);
}

#[test]
fn add_minor_third_to_c4_gives_e_flat() {
    assert_eq!(po("C4").checked_add(IntervalType::MinorThird), Ok(po("Eb4")));
}

#[test]
fn add_minor_second_to_b3_carries_octave() {
    assert_eq!(po("B3").checked_add(IntervalType::MinorSecond), Ok(po("C4")));
}

#[test]
fn subtract_minor_second_from_c4_borrows_octave() {
    assert_eq!(po("C4").checked_sub(IntervalType::MinorSecond), Ok(po("B3")));
}

#[test]
fn spelling_follows_letter_distance() {
    assert_eq!(text(po("C4").checked_add(IntervalType::AugmentedSecond)), "D#4");
    assert_eq!(text(po("C4").checked_add(IntervalType::MinorThird)), "Eb4");
    assert_eq!(text(po("E4").checked_add(IntervalType::DiminishedSecond)), "Fb4");
    assert_eq!(text(po("F4").checked_sub(IntervalType::DiminishedSecond)), "E#4");
    assert_eq!(text(po("D4").checked_sub(IntervalType::MajorThird)), "Bb3");
    assert_eq!(text(po("G3").checked_add(IntervalType::Fifth)), "D4");
    assert_eq!(text(po("F#3").checked_add(IntervalType::MajorThird)), "A#3");
    assert_eq!(text(po("A4").checked_add(IntervalType::Octave)), "A5");
    assert_eq!(text(po("A4").checked_sub(IntervalType::Octave)), "A3");
}

#[test]
fn spellings_across_octave_follow_the_letter() {
    // C-flat and B-sharp lie in the octave of their letter, a semitone from the next one
    let c_flat = po("B3").checked_add(IntervalType::DiminishedSecond).unwrap();
    assert_eq!(c_flat, po("Cb4"));
    assert_eq!(c_flat.get_semitone_value(), po("B3").get_semitone_value());
    assert_eq!(text(po("A3").checked_add(IntervalType::AugmentedSecond)), "B#3");
    assert_eq!(text(po("C4").checked_sub(IntervalType::DiminishedSecond)), "B#3");
    assert_eq!(text(po("Cb4").checked_add(IntervalType::Unison)), "Cb4");
    assert_eq!(text(po("A6").checked_add(IntervalType::AugmentedSecond)), "B#6");
    assert_eq!(text(po("C7").checked_sub(IntervalType::DiminishedSecond)), "B#6");
}

#[test]
fn augmented_sixth_spans_ten_semitones() {
    assert_eq!(IntervalType::AugmentedSixth.get_semitone_value(), 10);
    assert_eq!(text(po("C4").checked_add(IntervalType::AugmentedSixth)), "A#4");
}

#[test]
fn unison_keeps_octave() {
    for s in ["C4", "F#2", "Bb5", "E0", "G6", "Cb4", "B#3"] {
        let r = po(s).checked_add(IntervalType::Unison).unwrap();
        assert_eq!(r.octave, po(s).octave);
        assert_eq!(r, po(s));
    }
}

#[test]
fn letter_carry_changes_octave_by_one() {
    assert_eq!(po("A3").checked_add(IntervalType::MajorThird).unwrap().octave, Octave::Octave4);
    assert_eq!(po("G3").checked_add(IntervalType::Fourth).unwrap().octave, Octave::Octave4);
    assert_eq!(po("E3").checked_add(IntervalType::Fourth).unwrap().octave, Octave::Octave3);
    assert_eq!(po("D4").checked_sub(IntervalType::MajorThird).unwrap().octave, Octave::Octave3);
    assert_eq!(po("G4").checked_sub(IntervalType::MajorThird).unwrap().octave, Octave::Octave4);
}

#[test]
fn add_and_subtract_are_inverse() {
    let intervals = [
        IntervalType::MinorSecond,
        IntervalType::MajorThird,
        IntervalType::Fourth,
        IntervalType::AugmentedFourth,
        IntervalType::MinorSixth,
        IntervalType::Octave,
    ];
    for s in ["C4", "E4", "F#3", "Bb2", "G5"] {
        for i in intervals {
            let p = po(s);
            let down = p.checked_sub(i).unwrap();
            assert_eq!(down.checked_add(i), Ok(p));
            let up = p.checked_add(i).unwrap();
            assert_eq!(up.checked_sub(i), Ok(p));
        }
    }
    let sharp = po("F#3").checked_add(IntervalType::AugmentedFourth).unwrap();
    assert_eq!(sharp, po("B#3"));
    assert_eq!(sharp.checked_sub(IntervalType::AugmentedFourth), Ok(po("F#3")));
    let q = po("E4").checked_sub(IntervalType::MajorThird).unwrap();
    assert_eq!(q, po("C4"));
    assert_eq!(q.checked_add(IntervalType::MajorThird), Ok(po("E4")));
}

#[test]
fn leaving_the_range_is_out_of_bounds() {
    assert_eq!(po("C0").checked_sub(IntervalType::MinorSecond), Err(Error::OutofBounds));
    assert_eq!(po("C7").checked_add(IntervalType::MinorSecond), Err(Error::OutofBounds));
    assert_eq!(po("B6").checked_add(IntervalType::Octave), Err(Error::OutofBounds));
    assert_eq!(po("C8").checked_add(IntervalType::Unison), Err(Error::OutofBounds));
    assert_eq!(po("B6").checked_add(IntervalType::MinorSecond), Ok(po("C7")));
}

#[test]
fn double_accidental_start_is_spelling_fault() {
    assert_eq!(po("Cbb4").checked_add(IntervalType::Unison), Err(Error::SpellingFault));
    assert_eq!(po("D#4").checked_sub(IntervalType::MinorSecond), Err(Error::SpellingFault));
}

#[test]
fn respell_moves_letter_and_keeps_semitone() {
    let mut p = po("E4");
    p.respell_pitch(Alter::Flat);
    assert_eq!(p, po("Fb4"));
    let mut q = po("C4");
    q.respell_pitch(Alter::Sharp);
    assert_eq!(q, po("B#3"));
    let mut b = po("B3");
    b.respell_pitch(Alter::Flat);
    assert_eq!(b, po("Cb4"));
    assert_eq!(b.get_semitone_value(), Ok(59));
}

#[test]
fn octave_increment_and_decrement_clamp() {
    assert_eq!(Octave::Octave3.increment(), Octave::Octave4);
    assert_eq!(Octave::Octave8.increment(), Octave::Octave8);
    assert_eq!(Octave::Octave3.decrement(), Octave::Octave2);
    assert_eq!(Octave::Octave0.decrement(), Octave::Octave0);
    assert_eq!(Octave::from_number(5), Octave::Octave5);
    assert_eq!(Octave::Octave7.number(), 7);
}

#[test]
fn step_moves_cyclically() {
    assert_eq!(Step::B.increment(), Step::C);
    assert_eq!(Step::C.decrement(), Step::B);
    assert_eq!(Step::E.increment(), Step::F);
    assert_eq!(Step::A.plus(3), Step::D);
    assert_eq!(Step::D.minus(3), Step::A);
    assert_eq!(Step::G.plus(7), Step::G);
    assert_eq!(Step::C.semitone(), 48);
    assert_eq!(Step::B.semitone(), 59);
}

#[test]
fn step_from_semitone_classifies_values() {
    assert_eq!(Step::from_semitone(53), Ok(Step::F));
    assert_eq!(Step::from_semitone(54), Err(Error::AlterValue));
    assert_eq!(Step::from_semitone(60), Err(Error::OutofBounds));
}

#[test]
fn interval_tables() {
    assert_eq!(IntervalType::AugmentedSecond.get_semitone_value(), 3);
    assert_eq!(IntervalType::AugmentedSecond.get_diatonic_value(), 1);
    assert_eq!(IntervalType::DiminishedEighth.get_semitone_value(), 11);
    assert_eq!(IntervalType::DiminishedEighth.get_diatonic_value(), 7);
    assert_eq!(IntervalType::from_semitones(6), IntervalType::AugmentedFourth);
    assert_eq!(IntervalType::from_semitones(12), IntervalType::Octave);
    assert!(matches!(IntervalType::Fifth.get_quality(), mulib::interval::Quality::Perfect));
    assert!(matches!(IntervalType::MinorSixth.get_quality(), mulib::interval::Quality::Minor));
}

#[test]
fn new_builds_pitch_octave() {
    let p = PitchOctave::new(Pitch { step: Step::F, alter: Alter::Sharp }, Octave::Octave3);
    assert_eq!(p, po("F#3"));
    assert_eq!(Alter::DoubleFlat.offset(), -2);
}
