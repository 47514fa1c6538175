//! Why a pull can fail.

use vstd::prelude::*;

verus! {

/// `std::io::Error`, declared so that a transport failure can be carried
/// through to the caller. Nothing is claimed of what a value holds.
#[verifier::external_type_specification]
#[verifier::external_body]
pub struct ExIoError(std::io::Error);

/// The error of a pull.
#[derive(Debug)]
pub enum Error {
    /// The connection's protocol stream can no longer be trusted. Raised
    /// without any read being attempted, and never retryable.
    Desynchronized,
    /// The transport failed during a read. The failure is handed on as it
    /// came.
    Io(std::io::Error),
}

} // verus!
