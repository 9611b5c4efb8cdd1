//! The ways in which decoding can fail.

use vstd::prelude::*;
use vstd::string::StringExecFns;

verus! {

/// Why an input could not be decoded.
#[derive(Debug, Clone, Copy, PartialEq, Eq, Structural)]
pub enum Error {
    /// The text is not a base-10 signed 64-bit integer.
    InvalidInput,
    /// A sub-second part does not fit in 32 bits.
    ArithmeticOverflow,
    /// The instant lies outside the calendar's range.
    TimestampOutOfRange,
}

impl Error {
    /// The line that tells the user what went wrong.
    pub open spec fn text(self) -> Seq<char> {
        match self {
            Error::InvalidInput => "invalid input (digits only, '.,' allowed but ignored)"@,
            Error::ArithmeticOverflow => "out of range integral type conversion attempted"@,
            Error::TimestampOutOfRange => "Timestamp out of range!"@,
        }
    }

    /// The line that tells the user what went wrong.
    pub fn message(&self) -> (s: String)
        ensures
            s@ == self.text(),
    {
        match self {
            Error::InvalidInput => String::from_str(
                "invalid input (digits only, '.,' allowed but ignored)",
            ),
            Error::ArithmeticOverflow => String::from_str(
                "out of range integral type conversion attempted",
            ),
            Error::TimestampOutOfRange => String::from_str("Timestamp out of range!"),
        }
    }
}

} // verus!
