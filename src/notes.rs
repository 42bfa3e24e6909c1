//! The common interface of the generators.
use crate::error::Result;
use crate::pitch::{pitches_view, PitchOctave, Pitches};
use vstd::prelude::*;

verus! {

/// A musical structure that yields an ordered sequence of pitches.
pub trait Notes {
    /// The pitches the structure consists of, in order, or why there are none.
    spec fn spec_notes(&self) -> Result<Seq<PitchOctave>>;

    fn notes(&self) -> (r: Result<Pitches>)
        ensures
            pitches_view(r) == self.spec_notes(),
    ;
}

} // verus!
