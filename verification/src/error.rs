//! Error taxonomy of the crate.

use vstd::prelude::*;

verus! {

/// Why an operation failed.
///
/// `SpawnError` carries the OS error code reported while creating the
/// child (including an `exec` failure relayed over the error pipe);
/// `IoError` carries the OS error code of any other failing primitive;
/// `LogicError` flags programmatic misuse detected at run time;
/// `UtfError` holds the bytes of a captured stream that was not valid
/// UTF-8.
#[derive(Debug)]
pub enum PopenError {
    UtfError(Vec<u8>),
    IoError(i32),
    SpawnError(i32),
    LogicError(&'static str),
}

/// Result of any fallible operation of the crate.
pub type PopenResult<T> = Result<T, PopenError>;

} // verus!
