//! Musical pitch arithmetic: spelled pitches, intervals, chords and scales.
//!
//! The core is `PitchOctave::checked_add` / `checked_sub`, which move a pitch by a
//! named interval and spell the result on the letter that the interval's letter
//! distance reaches. Chords, scales and two-note intervals are built on it.

pub mod chord;
pub mod error;
pub mod interval;
pub mod laws;
pub mod notes;
pub mod pitch;
pub mod scale;
pub mod session;
pub mod text;
