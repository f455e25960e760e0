//! What can go wrong.

use vstd::prelude::*;

verus! {

/// A failure reported by the operating system, told apart as far as the
/// bridge treats failures differently.
#[derive(Clone, Copy, Debug, PartialEq, Eq, Hash)]
pub enum SysError {
    /// The descriptor is not open.
    BadDescriptor,
    /// The call was cut short by the arrival of a signal.
    Interrupted,
    /// Any other failure, with the error number of the operating system.
    Other { code: i32 },
}

/// Why an operation of the bridge failed.
#[derive(Clone, Copy, Debug, PartialEq, Eq, Hash)]
pub enum Error {
    /// A managed signal already had a handler, and overwriting was not asked
    /// for.
    AlreadyExists,
    /// No bridge is installed.
    NotFound,
    /// The operating system refused a call.
    System { cause: SysError },
}

} // verus!
