use mulib::chord::{Chord, ChordQuality, Inversion};
use mulib::error::Error;
use mulib::interval::{Interval, IntervalType};
use mulib::notes::Notes;
use mulib::pitch::{PitchOctave, PitchOrder, Pitches};
use mulib::scale::{Scale, ScaleType};

fn po(s: &str) -> PitchOctave {
    PitchOctave::from_str(s).unwrap()
}

fn names(r: Result<Pitches, Error>) -> Vec<String> {
    r.unwrap().0.iter().map(|p| p.to_string()).collect()
}

#[test]
fn major7_root_position_on_c4() {
    let chord = Chord::new(po("C4"), ChordQuality::Major7);
    assert_eq!(names(chord.notes()), vec!["C4", "E4", "G4", "B4"]);
}

#[test]
fn major7_inversions_on_c4() {
    let first = Chord::new_as_inversion(po("C4"), ChordQuality::Major7, Inversion::First);
    assert_eq!(names(first.notes()), vec!["E4", "G4", "B4", "C5"]);
    let second = Chord::new_as_inversion(po("C4"), ChordQuality::Major7, Inversion::Second);
    assert_eq!(names(second.notes()), vec!["G4", "B4", "C5", "E5"]);
    let third = Chord::new_as_inversion(po("C4"), ChordQuality::Major7, Inversion::Third);
    assert_eq!(names(third.notes()), vec!["B4", "C5", "E5", "G5"]);
}

#[test]
fn third_inversion_of_triad_is_invalid() {
    let chord = Chord::new_as_inversion(po("C4"), ChordQuality::Major, Inversion::Third);
    assert!(matches!(chord.notes(), Err(Error::InvalidInversion)));
    let second = Chord::new_as_inversion(po("C4"), ChordQuality::Major, Inversion::Second);
    assert_eq!(names(second.notes()), vec!["G4", "C5", "E5"]);
}

#[test]
fn fourth_inversion_needs_four_tones_above_root() {
    let seventh = Chord::new_as_inversion(po("C4"), ChordQuality::Major7, Inversion::Fourth);
    assert!(matches!(seventh.notes(), Err(Error::InvalidInversion)));
    let ninth = Chord::new_as_inversion(po("D4"), ChordQuality::Dom9, Inversion::Fourth);
    assert_eq!(names(ninth.notes()), vec!["C5", "E4", "D5", "F#5", "A5"]);
}

#[test]
fn chord_tones_are_spelled_by_the_engine() {
    let augmented = Chord::new(po("C4"), ChordQuality::Augmented);
    assert_eq!(names(augmented.notes()), vec!["C4", "E4", "Ab4"]);
    let add9 = Chord::new(po("C4"), ChordQuality::Add9);
    assert_eq!(names(add9.notes()), vec!["C4", "E4", "G4", "D4"]);
    assert_eq!(ChordQuality::Dom11Flat13Flat9.root_chord_interval(), vec![4, 7, 10, 1, 5, 8]);
}

#[test]
fn chord_out_of_range_fails() {
    let chord = Chord::new(po("A6"), ChordQuality::Major7);
    assert!(matches!(chord.gen_inversion(Inversion::Root), Err(Error::OutofBounds)));
}

#[test]
fn ionian_ascending_from_c4() {
    let scale = Scale::new(po("C4"), ScaleType::Ionian);
    assert_eq!(names(scale.notes()), vec!["C4", "D4", "E4", "F4", "G4", "A4", "B4", "C5"]);
}

#[test]
fn ionian_descending_from_c4() {
    let scale = Scale::new_with_order(po("C4"), ScaleType::Ionian, PitchOrder::Descending);
    assert_eq!(names(scale.notes()), vec!["C4", "B3", "A3", "G3", "F3", "E3", "D3", "C3"]);
}

#[test]
fn aeolian_both_directions() {
    let up = Scale::new(po("A3"), ScaleType::Aeolian);
    assert_eq!(names(up.gen_notes()), vec!["A3", "B3", "C4", "D4", "E4", "F4", "G4", "A4"]);
    let down = Scale::new_with_order(po("A3"), ScaleType::Aeolian, PitchOrder::Descending);
    assert_eq!(names(down.gen_notes()), vec!["A3", "G3", "F3", "E3", "D3", "C3", "B2", "A2"]);
}

#[test]
fn chromatic_and_sharp_keys() {
    let chromatic = Scale::new(po("C4"), ScaleType::Chromatic);
    assert_eq!(
        names(chromatic.notes()),
        vec!["C4", "D4", "Eb4", "E4", "F4", "F#4", "G4", "Ab4", "A4", "Bb4", "B4", "C5"]
    );
    let f_sharp = Scale::new(po("F#4"), ScaleType::Ionian);
    assert_eq!(
        names(f_sharp.notes()),
        vec!["F#4", "G#4", "A#4", "B4", "C#5", "D#5", "E#5", "F#5"]
    );
    assert_eq!(ScaleType::Dorian.scale_interval(), vec![2, 4, 5, 7, 9, 11]);
}

#[test]
fn scale_out_of_range_fails() {
    let scale = Scale::new(po("E6"), ScaleType::Ionian);
    assert!(matches!(scale.notes(), Err(Error::OutofBounds)));
}

#[test]
fn interval_in_both_directions() {
    let up = Interval::new(po("C4"), IntervalType::AugmentedSecond);
    assert_eq!(names(up.notes()), vec!["C4", "D#4"]);
    let down = Interval::new_with_order(po("E4"), IntervalType::MinorThird, PitchOrder::Descending);
    assert_eq!(names(down.notes()), vec!["E4", "C#4"]);
    let too_high = Interval::new(po("B6"), IntervalType::Octave);
    assert!(matches!(too_high.gen_notes(), Err(Error::OutofBounds)));
}

#[test]
fn pitches_are_written_space_separated() {
    let chord = Chord::new(po("C4"), ChordQuality::Minor);
    assert_eq!(chord.notes().unwrap().to_string(), "C4 Eb4 G4");
    assert_eq!(Pitches(vec![]).to_string(), "");
}

#[test]
fn c_sharp_ionian_rises_through_b_sharp() {
    let scale = Scale::new(po("C#4"), ScaleType::Ionian);
    assert_eq!(
        names(scale.notes()),
        vec!["C#4", "D#4", "E#4", "F#4", "G#4", "A#4", "B#4", "C#5"]
    );
}
