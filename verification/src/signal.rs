//! The signals that the bridge manages, and what a signal was set to do
//! before the bridge took it over.

use vstd::prelude::*;

verus! {

/// A signal that the bridge can manage.
#[derive(Clone, Copy, Debug, PartialEq, Eq, Hash)]
pub enum Signal {
    /// The interrupt request (Ctrl-C). Always managed.
    Interrupt,
    /// The termination request. Managed only with the termination option.
    Terminate,
    /// The hangup notice. Managed only with the termination option.
    Hangup,
}

/// What a process does when a signal arrives, as far as the bridge needs to
/// tell: the default action, nothing at all, or a handler of somebody's.
#[derive(Clone, Copy, Debug, PartialEq, Eq, Hash)]
pub enum Disposition {
    /// The default action of the operating system.
    Default,
    /// The signal is ignored.
    Ignore,
    /// A handler function is called.
    Handler,
}

impl Signal {
    /// The place of the signal in the order in which signals are taken over:
    /// interrupt first, then termination, then hangup.
    pub open spec fn position(self) -> nat {
        match self {
            Signal::Interrupt => 0,
            Signal::Terminate => 1,
            Signal::Hangup => 2,
        }
    }
}

/// How many signals the bridge manages: the interrupt alone, or all three
/// when the termination option is on.
pub open spec fn managed_count(termination: bool) -> nat {
    if termination {
        3
    } else {
        1
    }
}

/// The signal at place `index` of the managed signals.
pub open spec fn managed_signal(index: nat) -> Signal {
    if index == 0 {
        Signal::Interrupt
    } else if index == 1 {
        Signal::Terminate
    } else {
        Signal::Hangup
    }
}

/// Whether the bridge manages `signal` under the given option.
pub open spec fn is_managed(signal: Signal, termination: bool) -> bool {
    signal.position() < managed_count(termination)
}

/// The number of managed signals.
pub fn signal_count(termination: bool) -> (count: usize)
    ensures
        count == managed_count(termination),
{
    if termination {
        3
    } else {
        1
    }
}

/// The managed signal at place `index`.
pub(crate) fn signal_at(index: usize) -> (signal: Signal)
    requires
        index < 3,
    ensures
        signal == managed_signal(index as nat),
        signal.position() == index,
{
    if index == 0 {
        Signal::Interrupt
    } else if index == 1 {
        Signal::Terminate
    } else {
        Signal::Hangup
    }
}

} // verus!
