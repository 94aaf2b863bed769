//! The error taxonomy of the interpreter.
//!
//! Loading can fail on a bad magic header or on an underlying read failure.
//! Execution can hit a fatal runtime condition: these end the run immediately
//! and are surfaced to the caller rather than handled internally.

use vstd::prelude::*;

verus! {

/// `std::io::Error` is opaque to the verifier; it is declared here so that an
/// error raised while reading a program image can be carried with its cause.
#[verifier::external_type_specification]
#[verifier::external_body]
pub struct ExIoError(std::io::Error);

/// Everything that can go wrong while loading or running a program.
#[derive(Debug)]
pub enum RimError {
    /// The 2-byte magic at the start of the image did not match.
    InvalidMagic,
    /// Reading the underlying byte source failed; the cause is kept.
    IoError(std::io::Error),
    /// The Math device was asked to divide by zero.
    DivideByZero,
    /// A not-yet-implemented Keyboard function was invoked.
    Unimplemented,
    /// A device was handed a value that does not name one of the 4 registers.
    RegisterOutOfRange,
}

pub type RimResult<T> = Result<T, RimError>;

impl From<std::io::Error> for RimError {
    fn from(e: std::io::Error) -> (r: Self) {
        RimError::IoError(e)
    }
}

impl vstd::std_specs::convert::FromSpecImpl<std::io::Error> for RimError {
    open spec fn obeys_from_spec() -> bool {
        true
    }

    open spec fn from_spec(e: std::io::Error) -> RimError {
        RimError::IoError(e)
    }
}

} // verus!
