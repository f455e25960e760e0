//! Taking the bridge down.

use vstd::prelude::*;
use crate::action::Action;
use crate::bridge::{is_handler_init, Bridge};
use crate::error::Error;
use crate::signal::{managed_count, managed_signal, signal_at, signal_count};

verus! {

/// The requests that close the pipe of `bridge`: the write end first, then
/// the read end.
pub open spec fn closing(bridge: Bridge) -> Seq<Action> {
    seq![Action::Close { fd: bridge.write_end }, Action::Close { fd: bridge.read_end }]
}

/// The requests that give every managed signal its default action, in the
/// order in which the signals are taken over.
pub open spec fn resetting(termination: bool) -> Seq<Action> {
    Seq::new(
        managed_count(termination),
        |i: int| Action::ResetDefault { signal: managed_signal(i as nat) },
    )
}

/// The requests that take an installed bridge down: every managed signal goes
/// back to its default action, then the pipe is closed.
pub open spec fn teardown(bridge: Bridge, termination: bool) -> Seq<Action> {
    resetting(termination) + closing(bridge)
}

/// Gives up the pipe: the bridge becomes the sentinel, and the two requests
/// that close its descriptors are appended to `plan`.
pub fn close_pipe(bridge: &mut Bridge, plan: &mut Vec<Action>)
    ensures
        *final(bridge) == Bridge::sentinel(),
        final(plan)@ == old(plan)@ + closing(*old(bridge)),
{
    plan.push(Action::Close { fd: bridge.write_end });
    plan.push(Action::Close { fd: bridge.read_end });
    *bridge = Bridge::uninstalled();
}

/// Takes the bridge down.
///
/// Without an installed bridge this fails with [`Error::NotFound`] and
/// `bridge` stays as it is. Otherwise `bridge` becomes the sentinel, and the
/// result lists what the caller has to ask of the operating system, in this
/// order. None of these requests can make the teardown fail: the caller
/// makes each of them whatever became of the one before, and makes the
/// sentinel the process-wide state when the last one is made.
pub fn deinit_os_handler(bridge: &mut Bridge, termination: bool) -> (result: Result<
    Vec<Action>,
    Error,
>)
    ensures
        result is Ok <==> old(bridge).installed(),
        result is Err ==> result->Err_0 == Error::NotFound,
        result is Err ==> *final(bridge) == *old(bridge),
        result is Ok ==> result->Ok_0@ == teardown(*old(bridge), termination),
        result is Ok ==> *final(bridge) == Bridge::sentinel(),
{
    if !is_handler_init(bridge) {
        return Err(Error::NotFound);
    }
    let count: usize = signal_count(termination);
    let mut plan: Vec<Action> = Vec::new();
    let mut index: usize = 0;
    while index < count
        invariant
            index <= count,
            count == managed_count(termination),
            plan@ == resetting(termination).take(index as int),
        decreases count - index,
    {
        plan.push(Action::ResetDefault { signal: signal_at(index) });
        index = index + 1;
    }
    close_pipe(bridge, &mut plan);
    proof {
        assert(resetting(termination).take(count as int) == resetting(termination));
    }
    Ok(plan)
}

} // verus!
