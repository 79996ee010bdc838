//! USB error type

use vstd::prelude::*;

verus! {

/// USB Error type
#[derive(Debug, Copy, Clone, Eq, PartialEq, Structural, Hash)]
pub enum ErrorKind {
    FailedConversion,
    Timeout,
    Overflow,
    Underflow,
    Unknown,
}

impl ErrorKind {
    /// A short description of the error.
    pub fn description(&self) -> (r: &'static str)
        ensures
            r@ == (match *self {
                ErrorKind::FailedConversion => "TODO FailedConversion"@,
                ErrorKind::Timeout => "TODO Timeout"@,
                ErrorKind::Overflow => "TODO Overflow"@,
                ErrorKind::Underflow => "TODO Underflow"@,
                ErrorKind::Unknown => "TODO Unknown"@,
            }),
    {
        match self {
            ErrorKind::FailedConversion => "TODO FailedConversion",
            ErrorKind::Timeout => "TODO Timeout",
            ErrorKind::Overflow => "TODO Overflow",
            ErrorKind::Underflow => "TODO Underflow",
            ErrorKind::Unknown => "TODO Unknown",
        }
    }
}

impl crate::error::Error for ErrorKind {
    type Error = ErrorKind;

    fn kind(&self) -> (r: Self::Error)
        ensures
            r == *self,
    {
        *self
    }
}

/// USB Result<T>
pub type Result<T> = core::result::Result<T, ErrorKind>;

} // verus!
