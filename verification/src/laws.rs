//! What holds of every installation and every teardown, whatever the
//! operating system answers.
//!
//! A [`Run`] puts an installation next to the model of its process. The laws
//! are stated of every run that begins with a fresh installation and of every
//! sequence of answers that the installation accepts and the model allows.

use vstd::prelude::*;
use crate::action::{Action, End, Event};
use crate::bridge::{Bridge, INVALID_FD};
use crate::error::{Error, SysError};
use crate::install::{InstallState, Stage};
use crate::process::{Handling, Process};
use crate::signal::{is_managed, managed_count, Signal};
use crate::uninstall::teardown;
use crate::wait::{wait_step, BlockOutcome, ReadOutcome, WaitStep};

verus! {

/// An installation together with the process that answers it.
pub struct Run {
    pub install: InstallState,
    pub process: Process,
}

impl Run {
    /// The installation has not asked for anything yet.
    pub open spec fn fresh(self) -> bool {
        self.install == InstallState::start(self.install.config, self.install.bridge)
    }

    /// Whether `event` can be the answer to the waiting request: the
    /// installation accepts it and the process can give it.
    pub open spec fn admits(self, event: Event) -> bool {
        &&& self.install.accepts(event)
        &&& self.process.allows(self.install.action(), event)
    }

    /// The run after the waiting request was answered with `event`.
    pub open spec fn step(self, event: Event) -> Run {
        Run {
            install: self.install.next(event),
            process: self.process.after(self.install.action(), event),
        }
    }

    /// Whether `events` can be the answers to the next requests, one after
    /// the other.
    pub open spec fn admits_all(self, events: Seq<Event>) -> bool
        decreases events.len(),
    {
        if events.len() == 0 {
            true
        } else {
            &&& self.admits(events[0])
            &&& self.step(events[0]).admits_all(events.drop_first())
        }
    }

    /// The run after the next requests were answered with `events`.
    pub open spec fn after(self, events: Seq<Event>) -> Run
        decreases events.len(),
    {
        if events.len() == 0 {
            self
        } else {
            self.step(events[0]).after(events.drop_first())
        }
    }

    /// The requests that `events` are the answers to, in order.
    pub open spec fn asks(self, events: Seq<Event>) -> Seq<Action>
        decreases events.len(),
    {
        if events.len() == 0 {
            Seq::empty()
        } else {
            seq![self.install.action()] + self.step(events[0]).asks(events.drop_first())
        }
    }

    /// The bridge is the pipe that the installation has created, ready for
    /// use: its two descriptors are the two ends of one pipe, both are open
    /// and marked close-on-exec, and the write end is non-blocking.
    pub open spec fn holds_pipe(self) -> bool {
        let read_end = self.install.bridge.read_end as int;
        let write_end = self.install.bridge.write_end as int;
        &&& self.install.bridge == self.install.pipe
        &&& self.process.open.contains(read_end)
        &&& self.process.open.contains(write_end)
        &&& self.process.close_on_exec.contains(read_end)
        &&& self.process.close_on_exec.contains(write_end)
        &&& self.process.non_blocking.contains(write_end)
        &&& self.process.peer.dom().contains(write_end)
        &&& self.process.peer[write_end] == read_end
    }
}

/// `error` is no error, the conflict, or the failure that one of `events`
/// reports.
pub open spec fn caused(events: Seq<Event>, error: Option<Error>) -> bool {
    ||| error is None
    ||| error == Some(Error::AlreadyExists)
    ||| exists|i: int|
        0 <= i < events.len() && error == Some(
            Error::System { cause: (#[trigger] events[i])->error },
        ) && events[i] is Failed
}

/// A teardown of `bridge` that was answered with `answers` has closed `fd`.
pub open spec fn closed_by(bridge: Bridge, termination: bool, answers: Seq<Event>, fd: int) -> bool {
    let count = managed_count(termination) as int;
    ||| fd == bridge.write_end && answers[count] is Completed
    ||| fd == bridge.read_end && answers[count + 1] is Completed
}

/// An installation ends: it takes at most twelve answers, whatever they are,
/// and with the twelfth it has ended.
pub proof fn lemma_install_ends(begin: Run, events: Seq<Event>)
    requires
        begin.fresh(),
        begin.admits_all(events),
    ensures
        events.len() <= 12,
        events.len() == 12 ==> begin.after(events).install.finished(),
{
    lemma_after(begin, events);
}

/// The bridge is never half installed: if its two descriptors were both valid
/// or both the sentinel when the installation began, they are so at every
/// moment of it.
pub proof fn lemma_never_half_installed(begin: Run, events: Seq<Event>)
    requires
        begin.fresh(),
        begin.install.bridge.wf(),
        begin.admits_all(events),
    ensures
        begin.after(events).install.bridge.wf(),
{
    lemma_after(begin, events);
}

/// After an installation that succeeded the bridge is fully installed.
///
/// Its descriptors are the two ends of the new pipe; both are open and marked
/// close-on-exec, and the write end is non-blocking. Besides them, the open
/// descriptors are those that were open before. Every managed signal calls
/// the handler of the bridge, and every other signal does what it did before.
/// Without `overwrite`, every managed signal had the default action before.
pub proof fn lemma_install_succeeded(begin: Run, events: Seq<Event>)
    requires
        begin.fresh(),
        begin.admits_all(events),
        begin.after(events).install.finished(),
        begin.after(events).install.result() is Ok,
    ensures
        begin.after(events).install.bridge.installed(),
        begin.after(events).holds_pipe(),
        forall|fd: int| #[trigger]
            begin.after(events).process.open.contains(fd) <==> begin.process.open.contains(fd)
                || fd == begin.after(events).install.bridge.read_end || fd == begin.after(
                events,
            ).install.bridge.write_end,
        forall|signal: Signal|
            is_managed(signal, begin.install.config.termination) ==> #[trigger] begin.after(
                events,
            ).process.handling.get(signal) == Handling::Bridge,
        forall|signal: Signal|
            !is_managed(signal, begin.install.config.termination) ==> #[trigger] begin.after(
                events,
            ).process.handling.get(signal) == begin.process.handling.get(signal),
        forall|signal: Signal|
            !begin.install.config.overwrite && is_managed(signal, begin.install.config.termination)
                ==> #[trigger] begin.process.handling.get(signal) == Handling::Default,
{
    lemma_after(begin, events);
    let end = begin.after(events);
    assert forall|signal: Signal|
        is_managed(signal, begin.install.config.termination) implies #[trigger] end.process.handling.get(
        signal,
    ) == Handling::Bridge by {
        assert(end.signal_consistent(begin, signal));
    }
    assert forall|signal: Signal|
        !is_managed(signal, begin.install.config.termination) implies #[trigger] end.process.handling.get(
        signal,
    ) == begin.process.handling.get(signal) by {
        assert(end.signal_consistent(begin, signal));
    }
    assert forall|signal: Signal|
        !begin.install.config.overwrite && is_managed(
            signal,
            begin.install.config.termination,
        ) implies #[trigger] begin.process.handling.get(signal) == Handling::Default by {
        assert(end.prior_consistent(begin, signal));
    }
}

/// An installation that turns around undoes all that it has done, and in
/// order: from the failure to its end it asks for exactly what its rollback
/// lists.
pub proof fn lemma_failure_runs_the_rollback(run: Run, events: Seq<Event>)
    requires
        run.install.wf(),
        run.install.error is Some,
        run.install == run.install.unwind(run.install.error->0),
        run.admits_all(events),
        run.after(events).install.finished(),
    ensures
        run.asks(events) == run.install.rollback(),
{
    lemma_unwinding(run, events);
}

/// After an installation that failed nothing of it is left.
///
/// Every signal does what it did before. The bridge is the sentinel if the
/// new pipe had become the process-wide state, and is otherwise what it was:
/// so a bridge that was the sentinel before is the sentinel again. Every
/// descriptor that was open is still open, and a descriptor that is open now
/// was open before or is one that could not be closed.
pub proof fn lemma_install_failed(begin: Run, events: Seq<Event>)
    requires
        begin.fresh(),
        begin.admits_all(events),
        begin.after(events).install.finished(),
        begin.after(events).install.result() is Err,
    ensures
        begin.after(events).process.handling == begin.process.handling,
        begin.after(events).install.published ==> begin.after(events).install.bridge
            == Bridge::sentinel(),
        !begin.after(events).install.published ==> begin.after(events).install.bridge
            == begin.install.bridge,
        forall|fd: int|
            begin.process.open.contains(fd) ==> #[trigger] begin.after(events).process.open.contains(
                fd,
            ),
        forall|fd: int| #[trigger]
            begin.after(events).process.open.contains(fd) ==> begin.process.open.contains(fd)
                || begin.after(events).process.unclosed.contains(fd),
{
    lemma_after(begin, events);
    let end = begin.after(events);
    assert(end.signal_consistent(begin, Signal::Interrupt));
    assert(end.signal_consistent(begin, Signal::Terminate));
    assert(end.signal_consistent(begin, Signal::Hangup));
}

/// Without `overwrite`, an installation that finds a managed signal with
/// anything but the default action fails, and every signal does afterwards
/// what it did before. It fails with the conflict, unless the operating
/// system failed one of its requests: then it fails with that failure.
pub proof fn lemma_conflict_reported(begin: Run, events: Seq<Event>, signal: Signal)
    requires
        begin.fresh(),
        !begin.install.config.overwrite,
        is_managed(signal, begin.install.config.termination),
        begin.process.handling.get(signal) != Handling::Default,
        begin.admits_all(events),
        begin.after(events).install.finished(),
    ensures
        begin.after(events).install.result() is Err,
        caused(events, begin.after(events).install.error),
        begin.after(events).process.handling == begin.process.handling,
{
    lemma_after(begin, events);
    assert(begin.after(events).prior_consistent(begin, signal));
    lemma_error_source(begin, events);
    lemma_install_failed(begin, events);
}

/// A teardown gives every managed signal whose reset succeeds its default
/// action and leaves every other signal alone. It closes the two ends of the
/// pipe, as far as the operating system closes them, and nothing else.
pub proof fn lemma_teardown(
    process: Process,
    bridge: Bridge,
    termination: bool,
    answers: Seq<Event>,
)
    requires
        process.allows_all(teardown(bridge, termination), answers),
    ensures
        forall|signal: Signal|
            #![trigger process.after_all(teardown(bridge, termination), answers).handling.get(signal)]
            process.after_all(teardown(bridge, termination), answers).handling.get(signal) == (
            if is_managed(signal, termination) && answers[signal.position() as int] is Completed {
                Handling::Default
            } else {
                process.handling.get(signal)
            }),
        forall|fd: int|
            #![trigger process.after_all(teardown(bridge, termination), answers).open.contains(fd)]
            process.after_all(teardown(bridge, termination), answers).open.contains(fd) == (
            process.open.contains(fd) && !closed_by(bridge, termination, answers, fd)),
{
    reveal_with_fuel(Process::after_all, 6);
    reveal_with_fuel(Process::allows_all, 6);
}

/// Installing the bridge and taking it down again leaves every signal as it
/// was, provided that the installation replaced default actions only, which
/// it always does without `overwrite`, and that the operating system carried
/// out every reset of the teardown. If it also closed both ends of the pipe,
/// the open descriptors are those that were open before.
pub proof fn lemma_round_trip(begin: Run, events: Seq<Event>, answers: Seq<Event>)
    requires
        begin.fresh(),
        begin.admits_all(events),
        begin.after(events).install.finished(),
        begin.after(events).install.result() is Ok,
        forall|signal: Signal|
            begin.install.config.overwrite && is_managed(signal, begin.install.config.termination)
                ==> #[trigger] begin.process.handling.get(signal) == Handling::Default,
        begin.after(events).process.allows_all(
            teardown(begin.after(events).install.bridge, begin.install.config.termination),
            answers,
        ),
        forall|i: int|
            0 <= i < managed_count(begin.install.config.termination) ==> #[trigger] answers[i]
                is Completed,
    ensures
        begin.after(events).process.after_all(
            teardown(begin.after(events).install.bridge, begin.install.config.termination),
            answers,
        ).handling == begin.process.handling,
        (forall|i: int| 0 <= i < answers.len() ==> #[trigger] answers[i] is Completed)
            ==> begin.after(events).process.after_all(
            teardown(begin.after(events).install.bridge, begin.install.config.termination),
            answers,
        ).open == begin.process.open,
{
    let end = begin.after(events);
    let termination = begin.install.config.termination;
    let plan = teardown(end.install.bridge, termination);
    let last = end.process.after_all(plan, answers);
    lemma_install_succeeded(begin, events);
    lemma_after(begin, events);
    lemma_teardown(end.process, end.install.bridge, termination, answers);
    assert(last.handling.get(Signal::Interrupt) == begin.process.handling.get(Signal::Interrupt));
    assert(last.handling.get(Signal::Terminate) == begin.process.handling.get(Signal::Terminate));
    assert(last.handling.get(Signal::Hangup) == begin.process.handling.get(Signal::Hangup));
    if forall|i: int| 0 <= i < answers.len() ==> #[trigger] answers[i] is Completed {
        reveal_with_fuel(Process::allows_all, 6);
        let count = managed_count(termination) as int;
        assert(answers.len() == count + 2);
        assert(answers[count] is Completed);
        assert(answers[count + 1] is Completed);
        assert forall|fd: int| last.open.contains(fd) == begin.process.open.contains(fd) by {
            assert(end.process.open.contains(fd) <==> begin.process.open.contains(fd) || fd
                == end.install.bridge.read_end || fd == end.install.bridge.write_end);
        }
        assert(last.open =~= begin.process.open);
    }
}

/// A signal that is delivered after an installation that succeeded ends a
/// wait with `Awaited`.
///
/// A managed signal calls the handler of the bridge. Once the write that the
/// handler asks for is carried out, the next read from the read end of the
/// bridge that no signal cuts short ends the wait.
pub proof fn lemma_signal_ends_wait(
    begin: Run,
    events: Seq<Event>,
    signal: Signal,
    outcome: ReadOutcome,
)
    requires
        begin.fresh(),
        begin.admits_all(events),
        begin.after(events).install.finished(),
        begin.after(events).install.result() is Ok,
        is_managed(signal, begin.install.config.termination),
        begin.after(events).process.after(
            Action::Notify { fd: begin.after(events).install.bridge.write_end },
            Event::Completed,
        ).allows_read(begin.after(events).install.bridge.read_end, outcome),
        outcome != (ReadOutcome::Failed { error: SysError::Interrupted }),
    ensures
        begin.after(events).process.handling.get(signal) == Handling::Bridge,
        begin.after(events).process.allows(
            Action::Notify { fd: begin.after(events).install.bridge.write_end },
            Event::Completed,
        ),
        wait_step(begin.after(events).install.bridge, Some(outcome)) == (WaitStep::Finished {
            outcome: BlockOutcome::Awaited,
        }),
{
    lemma_install_succeeded(begin, events);
}

/// A teardown that closes the read end of the bridge ends a wait with
/// `HandlerRemoved`.
///
/// Whether the wait reads from the read end that the bridge had or from the
/// sentinel that has taken its place, the read finds no open descriptor, and
/// that ends the wait.
pub proof fn lemma_teardown_ends_wait(
    process: Process,
    bridge: Bridge,
    termination: bool,
    answers: Seq<Event>,
    fd: i32,
    outcome: ReadOutcome,
)
    requires
        process.wf(),
        process.allows_all(teardown(bridge, termination), answers),
        answers[managed_count(termination) as int + 1] is Completed,
        fd == bridge.read_end || fd == INVALID_FD,
        process.after_all(teardown(bridge, termination), answers).allows_read(fd, outcome),
    ensures
        wait_step(Bridge::sentinel(), None) == (WaitStep::Read { fd: INVALID_FD }),
        wait_step(Bridge::sentinel(), Some(outcome)) == (WaitStep::Finished {
            outcome: BlockOutcome::HandlerRemoved,
        }),
{
    lemma_teardown(process, bridge, termination, answers);
    let last = process.after_all(teardown(bridge, termination), answers);
    assert(!last.open.contains(fd as int));
}

impl Run {
    /// How many of the signals taken over have their prior action back.
    spec fn restored(self) -> int {
        match self.install.stage {
            Stage::Restore { index } => index as int,
            Stage::Close { .. } => self.install.registered as int,
            Stage::Finished => if self.install.error is Some {
                self.install.registered as int
            } else {
                0
            },
            _ => 0,
        }
    }

    /// `signal` is in the hands of the bridge: taken over and not put back.
    spec fn holds_signal(self, signal: Signal) -> bool {
        self.restored() <= signal.position() < self.install.registered
    }

    /// `end` of the new pipe exists and no attempt was made to close it.
    spec fn holds_end(self, end: End) -> bool {
        &&& self.install.pipe.installed()
        &&& match self.install.stage {
            Stage::Close { end: closing } => if self.install.published {
                closing == End::Write || end == End::Read
            } else {
                closing == End::Read || end == End::Write
            },
            _ => true,
        }
    }

    /// `end` of the new pipe has been marked close-on-exec.
    spec fn has_marked(self, end: End) -> bool {
        &&& self.holds_end(end)
        &&& self.install.error is None
        &&& match self.install.stage {
            Stage::CreatePipe => false,
            Stage::CloseOnExec { end: marking } => marking == End::Write && end == End::Read,
            _ => true,
        }
    }

    /// The write end of the new pipe has been made non-blocking.
    spec fn has_unblocked(self) -> bool {
        &&& self.install.error is None
        &&& (self.install.stage is Register || self.install.stage is Finished)
    }

    /// What the process does with `signal` is what the installation takes it
    /// to do: a signal in the hands of the bridge calls the bridge's handler
    /// and its prior action is kept; any other signal does what it did at the
    /// beginning.
    spec fn signal_consistent(self, begin: Run, signal: Signal) -> bool {
        if self.holds_signal(signal) {
            &&& self.process.handling.get(signal) == Handling::Bridge
            &&& self.process.kept.get(signal) == begin.process.handling.get(signal)
        } else {
            self.process.handling.get(signal) == begin.process.handling.get(signal)
        }
    }

    /// Without `overwrite`, a signal that was taken over without a conflict
    /// had the default action.
    spec fn prior_consistent(self, begin: Run, signal: Signal) -> bool {
        !self.install.config.overwrite && self.install.error is None && signal.position()
            < self.install.registered ==> begin.process.handling.get(signal) == Handling::Default
    }

    /// The open descriptors are those of the beginning and the ends of the
    /// new pipe that the installation still holds, and possibly ends that
    /// could not be closed.
    spec fn descriptors_consistent(self, begin: Run) -> bool {
        let read_end = self.install.pipe.read_end as int;
        let write_end = self.install.pipe.write_end as int;
        &&& self.install.pipe.installed() ==> {
            &&& read_end != write_end
            &&& !begin.process.open.contains(read_end)
            &&& !begin.process.open.contains(write_end)
        }
        &&& forall|fd: int|
            begin.process.open.contains(fd) ==> #[trigger] self.process.open.contains(fd)
        &&& forall|fd: int| #[trigger]
            self.process.open.contains(fd) ==> {
                ||| begin.process.open.contains(fd)
                ||| self.install.error is Some && self.process.unclosed.contains(fd)
                ||| self.holds_end(End::Read) && fd == read_end
                ||| self.holds_end(End::Write) && fd == write_end
            }
        &&& self.holds_end(End::Read) ==> self.process.open.contains(read_end)
        &&& self.holds_end(End::Write) ==> self.process.open.contains(write_end)
        &&& self.has_marked(End::Read) ==> self.process.close_on_exec.contains(read_end)
        &&& self.has_marked(End::Write) ==> self.process.close_on_exec.contains(write_end)
        &&& self.has_unblocked() ==> self.process.non_blocking.contains(write_end)
        &&& self.holds_end(End::Read) && self.holds_end(End::Write) ==> {
            &&& self.process.peer.dom().contains(write_end)
            &&& self.process.peer[write_end] == read_end
        }
        &&& begin.process.wf() ==> self.process.wf()
    }

    /// The run is one that an installation beginning with `begin` can reach.
    spec fn consistent(self, begin: Run) -> bool {
        &&& self.install.wf()
        &&& self.install.config == begin.install.config
        &&& !self.install.published ==> self.install.bridge == begin.install.bridge
        &&& self.signal_consistent(begin, Signal::Interrupt)
        &&& self.signal_consistent(begin, Signal::Terminate)
        &&& self.signal_consistent(begin, Signal::Hangup)
        &&& self.prior_consistent(begin, Signal::Interrupt)
        &&& self.prior_consistent(begin, Signal::Terminate)
        &&& self.prior_consistent(begin, Signal::Hangup)
        &&& self.descriptors_consistent(begin)
    }

    /// An upper bound on the number of answers that the installation can
    /// still take.
    spec fn steps_left(self) -> nat {
        match self.install.stage {
            Stage::CreatePipe => 12,
            Stage::CloseOnExec { end: End::Read } => 11,
            Stage::CloseOnExec { end: End::Write } => 10,
            Stage::NonBlocking => 9,
            Stage::Register { index } => (8 - index) as nat,
            Stage::Restore { index } => (5 - index) as nat,
            Stage::Close { end } => if self.install.published == (end == End::Write) {
                2
            } else {
                1
            },
            Stage::Finished => 0,
        }
    }
}

/// What is left of the rollback: the requests that an installation on its way
/// back has yet to make.
spec fn remaining(install: InstallState) -> Seq<Action> {
    match install.stage {
        Stage::Restore { index } => install.rollback().skip(index as int),
        Stage::Close { end } => if install.published == (end == End::Write) {
            seq![
                Action::Close { fd: install.pipe.end(end) },
                Action::Close {
                    fd: install.pipe.end(
                        if end == End::Write {
                            End::Read
                        } else {
                            End::Write
                        },
                    ),
                },
            ]
        } else {
            seq![Action::Close { fd: install.pipe.end(end) }]
        },
        _ => Seq::empty(),
    }
}

/// An installation on its way back asks for what is left of its rollback.
proof fn lemma_unwinding(run: Run, events: Seq<Event>)
    requires
        run.install.wf(),
        run.install.error is Some,
        run.admits_all(events),
        run.after(events).install.finished(),
    ensures
        run.asks(events) == remaining(run.install),
    decreases events.len(),
{
    if events.len() > 0 {
        let next = run.step(events[0]);
        lemma_unwinding(next, events.drop_first());
        assert(remaining(run.install) =~= seq![run.install.action()] + remaining(next.install));
    }
}

/// One answer keeps a run consistent and uses up one of the steps left.
proof fn lemma_step(run: Run, begin: Run, event: Event)
    requires
        run.consistent(begin),
        run.admits(event),
    ensures
        run.step(event).consistent(begin),
        run.step(event).steps_left() < run.steps_left(),
{
}

/// Any number of answers keep a run consistent, and there are no more of
/// them than there were steps left.
proof fn lemma_steps(run: Run, begin: Run, events: Seq<Event>)
    requires
        run.consistent(begin),
        run.admits_all(events),
    ensures
        run.after(events).consistent(begin),
        events.len() + run.after(events).steps_left() <= run.steps_left(),
    decreases events.len(),
{
    if events.len() > 0 {
        lemma_step(run, begin, events[0]);
        lemma_steps(run.step(events[0]), begin, events.drop_first());
    }
}

/// A run that begins with a fresh installation is consistent all the way, and
/// takes at most twelve answers.
proof fn lemma_after(begin: Run, events: Seq<Event>)
    requires
        begin.fresh(),
        begin.admits_all(events),
    ensures
        begin.after(events).consistent(begin),
        events.len() + begin.after(events).steps_left() <= 12,
{
    assert(begin.consistent(begin));
    lemma_steps(begin, begin, events);
}

/// The error of an installation, once it has one, stays.
proof fn lemma_error_stays(run: Run, events: Seq<Event>)
    requires
        run.install.wf(),
        run.install.error is Some,
        run.admits_all(events),
    ensures
        run.after(events).install.error == run.install.error,
    decreases events.len(),
{
    if events.len() > 0 {
        lemma_error_stays(run.step(events[0]), events.drop_first());
    }
}

/// The error of an installation is the conflict, or the failure that one of
/// its requests was answered with.
proof fn lemma_error_source(run: Run, events: Seq<Event>)
    requires
        run.install.wf(),
        run.install.error is None,
        run.admits_all(events),
    ensures
        caused(events, run.after(events).install.error),
    decreases events.len(),
{
    if events.len() > 0 {
        let next = run.step(events[0]);
        let rest = events.drop_first();
        if next.install.error is None {
            lemma_error_source(next, rest);
            let error = run.after(events).install.error;
            if error is Some && error != Some(Error::AlreadyExists) {
                let i = choose|i: int|
                    0 <= i < rest.len() && error == Some(
                        Error::System { cause: (#[trigger] rest[i])->error },
                    ) && rest[i] is Failed;
                assert(events[i + 1] == rest[i]);
            }
        } else {
            lemma_error_stays(next, rest);
            if next.install.error != Some(Error::AlreadyExists) {
                assert(events[0] is Failed);
            }
        }
    }
}

} // verus!
