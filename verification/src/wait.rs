//! Waiting for a signal: what each attempt to read from the pipe means.

use vstd::prelude::*;
use crate::bridge::Bridge;
use crate::error::{Error, SysError};

verus! {

/// How a wait ended.
#[derive(Clone, Copy, Debug, PartialEq, Eq, Hash)]
pub enum BlockOutcome {
    /// A managed signal was delivered.
    Awaited,
    /// The bridge was taken down while the wait was under way.
    HandlerRemoved,
}

/// What an attempt to read one byte gave.
#[derive(Clone, Copy, Debug, PartialEq, Eq, Hash)]
pub enum ReadOutcome {
    /// The read returned, with this many bytes.
    Bytes { count: usize },
    /// The read failed.
    Failed { error: SysError },
}

/// What the waiting thread has to do next.
#[derive(Clone, Copy, Debug, PartialEq, Eq, Hash)]
pub enum WaitStep {
    /// Read one byte from this descriptor, and come back with the outcome.
    Read { fd: i32 },
    /// The wait is over.
    Finished { outcome: BlockOutcome },
    /// The wait has failed.
    Failed { error: Error },
}

/// The next step of a wait, given the bridge as it is now and the outcome of
/// the read before, if there was one.
///
/// One byte read is a signal delivered. No byte, or a descriptor that is not
/// open, means that the bridge has been taken down. A read cut short by a
/// signal is made again. Any other failure ends the wait with that failure.
pub open spec fn wait_step(bridge: Bridge, last: Option<ReadOutcome>) -> WaitStep {
    match last {
        None => WaitStep::Read { fd: bridge.read_end },
        Some(ReadOutcome::Bytes { count }) => if count == 1 {
            WaitStep::Finished { outcome: BlockOutcome::Awaited }
        } else {
            WaitStep::Finished { outcome: BlockOutcome::HandlerRemoved }
        },
        Some(ReadOutcome::Failed { error }) => match error {
            SysError::BadDescriptor => WaitStep::Finished { outcome: BlockOutcome::HandlerRemoved },
            SysError::Interrupted => WaitStep::Read { fd: bridge.read_end },
            SysError::Other { .. } => WaitStep::Failed { error: Error::System { cause: error } },
        },
    }
}

/// Decides the next step of a wait.
///
/// `bridge` is the process-wide state read anew for this step, so that a read
/// is always made from the read end as it is now; `last` is the outcome of the
/// read that the step before asked for, `None` when the wait begins.
pub fn block_ctrl_c(bridge: &Bridge, last: Option<ReadOutcome>) -> (step: WaitStep)
    ensures
        step == wait_step(*bridge, last),
{
    match last {
        None => WaitStep::Read { fd: bridge.read_end },
        Some(ReadOutcome::Bytes { count }) => if count == 1 {
            WaitStep::Finished { outcome: BlockOutcome::Awaited }
        } else {
            WaitStep::Finished { outcome: BlockOutcome::HandlerRemoved }
        },
        Some(ReadOutcome::Failed { error }) => match error {
            SysError::BadDescriptor => WaitStep::Finished { outcome: BlockOutcome::HandlerRemoved },
            SysError::Interrupted => WaitStep::Read { fd: bridge.read_end },
            SysError::Other { .. } => WaitStep::Failed { error: Error::System { cause: error } },
        },
    }
}

} // verus!
