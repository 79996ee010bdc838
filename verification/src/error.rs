//! Error handling shared by the firmware components.

use vstd::prelude::*;

use crate::gcp::ClassId;

verus! {

/// The libgreat Error trait: an error that can name its kind.
pub trait Error: core::fmt::Debug {
    /// The kind of the error; the kind of an error kind is itself.
    type Error;

    fn kind(&self) -> Self::Error;
}

/// Defines an error type, to be used by any other traits.
pub trait ErrorType {
    /// Error type
    type Error: Error;
}

impl<T: ErrorType> ErrorType for &mut T {
    type Error = T::Error;
}

/// Errors returned by the Great Communications Protocol verbs and classes.
#[derive(Debug, Clone, Copy, PartialEq, Eq)]
pub enum GreatError {
    /// The arguments of a command do not have the layout its verb expects.
    GcpInvalidArguments,
    /// No registered class has the requested class id.
    GcpClassNotFound,
    /// The class has no verb with the requested id: the class, and the verb
    /// number asked for.
    GcpVerbNotFound(ClassId, u32),
    /// The requested verb descriptor number is unknown.
    GcpUnknownVerbDescriptor,
    /// A message could not be decoded.
    BadMessage,
    /// An argument is out of range.
    InvalidArgument,
    /// There is no message of the requested type queued.
    NoMessageOfType,
    /// Any other failure, with a description.
    Message(&'static str),
}

impl Error for GreatError {
    type Error = GreatError;

    fn kind(&self) -> (r: Self::Error)
        ensures
            r == *self,
    {
        *self
    }
}

/// Result of a Great Communications Protocol operation.
pub type GreatResult<T> = core::result::Result<T, GreatError>;

/// A byte response, or an error, with the bytes as a sequence.
pub open spec fn view_result(r: GreatResult<Vec<u8>>) -> core::result::Result<Seq<u8>, GreatError> {
    match r {
        Ok(v) => Ok(v@),
        Err(e) => Err(e),
    }
}

/// The errors of the SoC firmware itself.
#[derive(Debug, Copy, Clone, Eq, PartialEq, Structural, Hash)]
pub enum ErrorKind {
    Unknown,
}

impl ErrorKind {
    /// A short description of the error.
    pub fn description(&self) -> (r: &'static str)
        ensures
            r@ == "TODO Unknown"@,
    {
        match self {
            ErrorKind::Unknown => "TODO Unknown",
        }
    }
}

impl Error for ErrorKind {
    type Error = ErrorKind;

    fn kind(&self) -> (r: Self::Error)
        ensures
            r == *self,
    {
        *self
    }
}

} // verus!
