//! The state of the bridge: the two descriptors of its pipe.

use vstd::prelude::*;
use crate::action::{Action, End};

verus! {

/// The descriptor value that stands for "no descriptor".
pub const INVALID_FD: i32 = -1;

/// The pipe of the bridge. Both descriptors are valid while the bridge is
/// installed, and both are [`INVALID_FD`] while it is not.
#[derive(Clone, Copy, Debug, PartialEq, Eq, Hash)]
pub struct Bridge {
    /// The end that the waiting thread reads from.
    pub read_end: i32,
    /// The end that the signal handler writes to.
    pub write_end: i32,
}

impl Bridge {
    /// The bridge is installed: both descriptors are valid.
    pub open spec fn installed(self) -> bool {
        self.read_end != INVALID_FD && self.write_end != INVALID_FD
    }

    /// The state of a bridge that is not installed.
    pub open spec fn sentinel() -> Bridge {
        Bridge { read_end: INVALID_FD, write_end: INVALID_FD }
    }

    /// The pair is either fully installed or the sentinel, never half of each.
    pub open spec fn wf(self) -> bool {
        self.installed() || self == Bridge::sentinel()
    }

    /// The descriptor of one end.
    pub open spec fn end(self, end: End) -> i32 {
        match end {
            End::Read => self.read_end,
            End::Write => self.write_end,
        }
    }

    /// The state of a bridge that is not installed.
    pub fn uninstalled() -> (bridge: Bridge)
        ensures
            bridge == Bridge::sentinel(),
    {
        Bridge { read_end: INVALID_FD, write_end: INVALID_FD }
    }

    /// The descriptor of one end.
    pub fn descriptor(&self, end: End) -> (fd: i32)
        ensures
            fd == self.end(end),
    {
        match end {
            End::Read => self.read_end,
            End::Write => self.write_end,
        }
    }
}

/// Whether a bridge is installed.
pub fn is_handler_init(bridge: &Bridge) -> (installed: bool)
    ensures
        installed == bridge.installed(),
{
    bridge.read_end != INVALID_FD && bridge.write_end != INVALID_FD
}

/// What the signal handler does when a managed signal arrives: it writes one
/// byte to the write end of the bridge as it is at that moment, and never
/// looks at the outcome.
pub fn os_handler(bridge: &Bridge) -> (action: Action)
    ensures
        action == (Action::Notify { fd: bridge.write_end }),
{
    Action::Notify { fd: bridge.write_end }
}

} // verus!
