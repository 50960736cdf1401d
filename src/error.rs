//! The one error type of the library.
use vstd::prelude::*;

verus! {

#[verifier::external_type_specification]
#[verifier::external_body]
pub struct ExIoError(std::io::Error);

/// Why a call of rustup did not give what was asked.
///
/// A listing line that is not a well-formed triple is no error: it is kept as
/// an uncoined identifier.
#[derive(Debug)]
pub enum RustupTargetError {
    /// The process could not be started.
    ProcessFailed(std::io::Error),
    /// rustup ran and exited without success.
    RustupError { exitcode: Option<i32>, stderr: String, stdout: String },
    /// What rustup printed is not UTF-8 once the terminal escapes are gone.
    InvalidEncoding,
}

} // verus!
