//! The requests that the bridge makes of the operating system, and the
//! answers that come back.

use vstd::prelude::*;
use crate::error::{Error, SysError};
use crate::signal::{Disposition, Signal};

verus! {

/// One end of the pipe.
#[derive(Clone, Copy, Debug, PartialEq, Eq, Hash)]
pub enum End {
    /// The end that the waiting thread reads from.
    Read,
    /// The end that the signal handler writes to.
    Write,
}

/// What the caller has to do next.
#[derive(Clone, Copy, Debug, PartialEq, Eq, Hash)]
pub enum Action {
    /// Create a pipe. With `close_on_exec` both descriptors are to be marked
    /// close-on-exec by the same call.
    CreatePipe { close_on_exec: bool },
    /// Mark the descriptor close-on-exec.
    SetCloseOnExec { fd: i32 },
    /// Put the descriptor into non-blocking mode.
    SetNonBlocking { fd: i32 },
    /// Make the bridge's handler the action of `signal`, and keep the action
    /// that it replaces.
    Register { signal: Signal },
    /// Put back the action that `Register` kept for `signal`. This must not
    /// fail.
    Restore { signal: Signal },
    /// Give `signal` its default action. A failure is of no consequence.
    ResetDefault { signal: Signal },
    /// Close the descriptor. A failure is of no consequence.
    Close { fd: i32 },
    /// Write one byte to the descriptor. A failure is of no consequence.
    Notify { fd: i32 },
    /// Nothing is left to do: the operation has ended with `result`.
    Finish { result: Result<(), Error> },
}

/// What the operating system answered to an action.
#[derive(Clone, Copy, Debug, PartialEq, Eq, Hash)]
pub enum Event {
    /// The pipe exists, with these two descriptors.
    PipeCreated { read_end: i32, write_end: i32 },
    /// The handler is in place; `prior` says what the signal did before.
    Registered { prior: Disposition },
    /// The action was carried out.
    Completed,
    /// The action failed.
    Failed { error: SysError },
}

} // verus!
