use vstd::prelude::*;

verus! {

/// Failures of the pitch engine, the generators built on it, and the text forms.
#[derive(Debug, Clone, Copy, PartialEq, Eq, Structural)]
pub enum Error {
    Unsupported,
    Unit,
    /// A semitone value or octave outside what a pitch may have.
    OutofBounds,
    /// A semitone value that falls between two natural letters.
    AlterValue,
    /// A chord inversion that the chord has too few tones for.
    InvalidInversion,
    MissingReader,
    /// Text that names no pitch, accidental, octave or enumerated value.
    Parse,
    Encoding,
    ItemExists,
    NotInitialized,
    /// An interval whose letter and semitone distances lie more than one
    /// accidental apart from the starting pitch.
    SpellingFault,
}

pub type Result<T> = core::result::Result<T, Error>;

/// The message shown for each error.
pub open spec fn error_message(e: Error) -> Seq<char> {
    match e {
        Error::Unsupported => "Unsupported Feature"@,
        Error::Unit => "Unnamed Error"@,
        Error::OutofBounds => "Data Out of Bounds"@,
        Error::AlterValue => "Alter value needed"@,
        Error::InvalidInversion => "Inversion not supported for Chord Type"@,
        Error::MissingReader => "Missing Reader"@,
        Error::Parse => "Parsing Error"@,
        Error::Encoding => "Encoding Error"@,
        Error::ItemExists => "Item Already Exists"@,
        Error::NotInitialized => "Not Initialized"@,
        Error::SpellingFault => "Interval cannot be spelled with one accidental"@,
    }
}

impl Error {
    /// The message shown for this error.
    pub fn message(&self) -> (r: String)
        ensures
            r@ == error_message(*self),
    {
        match self {
            Error::Unsupported => String::from_str("Unsupported Feature"),
            Error::Unit => String::from_str("Unnamed Error"),
            Error::OutofBounds => String::from_str("Data Out of Bounds"),
            Error::AlterValue => String::from_str("Alter value needed"),
            Error::InvalidInversion => String::from_str("Inversion not supported for Chord Type"),
            Error::MissingReader => String::from_str("Missing Reader"),
            Error::Parse => String::from_str("Parsing Error"),
            Error::Encoding => String::from_str("Encoding Error"),
            Error::ItemExists => String::from_str("Item Already Exists"),
            Error::NotInitialized => String::from_str("Not Initialized"),
            Error::SpellingFault => String::from_str("Interval cannot be spelled with one accidental"),
        }
    }
}

} // verus!
