//! [`smolusb`] Error type

use vstd::prelude::*;

verus! {

/// [`smolusb`] Error type
#[derive(Debug, Copy, Clone, Eq, PartialEq, Structural, Hash)]
pub enum ErrorKind {
    FailedConversion,
}

impl ErrorKind {
    /// A short description of the error.
    pub fn description(&self) -> (r: &'static str)
        ensures
            r@ == "Failed to convert packet value"@,
    {
        match self {
            ErrorKind::FailedConversion => "Failed to convert packet value",
        }
    }
}

impl crate::error::Error for ErrorKind {
    type Error = ErrorKind;

    fn kind(&self) -> (r: Self::Error)
        ensures
            r == *self,
    {
        *self
    }
}

} // verus!
