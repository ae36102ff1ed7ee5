//! Errors, as plain values or as handed over by the operating system.

use vstd::prelude::*;

verus! {

/// An error of `std::io`, carried from the call that failed to the caller and never looked into.
#[verifier::external_type_specification]
#[verifier::external_body]
pub struct ExIoError(std::io::Error);

/// The category of an error that this library raises itself.
#[derive(Clone, Copy, Debug, PartialEq, Eq, Structural)]
pub enum ErrorKind {
    /// A parameter was unusable as given.
    InvalidInput,
    /// The named entity does not exist.
    NotFound,
    /// The platform cannot do this.
    Unsupported,
    /// None of the above.
    Other,
}

/// Why an operation failed.
#[derive(Debug)]
pub enum Error {
    /// The operating system refused a call.
    Io(std::io::Error),
    /// This library refused a request, or could not use what a call returned.
    Simple { kind: ErrorKind, message: &'static str },
}

} // verus!
