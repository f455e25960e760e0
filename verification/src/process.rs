//! A model of the process around the bridge: what each signal does, which
//! descriptors are open, which pipes hold a byte, and how the requests of the
//! bridge change all that.
//!
//! Nothing here runs. The model says what the requests in [`Action`] mean, so
//! that the laws of the bridge can speak of signals, descriptors and pipes
//! and not only of the bridge's own bookkeeping. It says nothing of time or
//! of threads: a request is answered before the next one is made.

use vstd::prelude::*;
use crate::action::{Action, Event};
use crate::error::SysError;
use crate::signal::{Disposition, Signal};
use crate::wait::ReadOutcome;

verus! {

/// What a process does when a signal arrives.
pub enum Handling {
    /// The default action of the operating system.
    Default,
    /// Nothing.
    Ignored,
    /// It calls a handler that is not the bridge's. Handlers with different
    /// `id` are different handlers.
    Foreign { id: int },
    /// It calls the handler of the bridge.
    Bridge,
}

impl Handling {
    /// What an installation is told of a signal that it has taken over.
    pub open spec fn disposition(self) -> Disposition {
        match self {
            Handling::Default => Disposition::Default,
            Handling::Ignored => Disposition::Ignore,
            Handling::Foreign { .. } => Disposition::Handler,
            Handling::Bridge => Disposition::Handler,
        }
    }
}

/// One [`Handling`] for each signal that the bridge can manage.
pub struct Table {
    pub interrupt: Handling,
    pub terminate: Handling,
    pub hangup: Handling,
}

impl Table {
    /// The entry of `signal`.
    pub open spec fn get(self, signal: Signal) -> Handling {
        match signal {
            Signal::Interrupt => self.interrupt,
            Signal::Terminate => self.terminate,
            Signal::Hangup => self.hangup,
        }
    }

    /// The table with the entry of `signal` replaced.
    pub open spec fn set(self, signal: Signal, handling: Handling) -> Table {
        match signal {
            Signal::Interrupt => Table { interrupt: handling, ..self },
            Signal::Terminate => Table { terminate: handling, ..self },
            Signal::Hangup => Table { hangup: handling, ..self },
        }
    }
}

/// The part of a process that the bridge touches.
pub struct Process {
    /// What each signal does now.
    pub handling: Table,
    /// For each signal, what it did when the bridge last took it over: the
    /// action that `Action::Restore` puts back.
    pub kept: Table,
    /// The descriptors that are open.
    pub open: Set<int>,
    /// The open descriptors that are marked close-on-exec.
    pub close_on_exec: Set<int>,
    /// The open descriptors that are in non-blocking mode.
    pub non_blocking: Set<int>,
    /// The descriptors that the operating system was asked to close and
    /// reported that it could not.
    pub unclosed: Set<int>,
    /// For the write end of each pipe, the read end of the same pipe.
    pub peer: Map<int, int>,
    /// The read ends of the pipes that hold at least one byte.
    pub waiting: Set<int>,
}

impl Process {
    /// No open descriptor is negative.
    pub open spec fn wf(self) -> bool {
        forall|fd: int| #[trigger] self.open.contains(fd) ==> fd >= 0
    }

    /// Whether the process can answer `action` with `event`.
    ///
    /// A new pipe has two different descriptors that were not open before.
    /// A signal that is taken over reports what it did until then. Only an
    /// open descriptor can be configured or closed with success. Any request
    /// may fail.
    pub open spec fn allows(self, action: Action, event: Event) -> bool {
        match action {
            Action::CreatePipe { .. } => match event {
                Event::PipeCreated { read_end, write_end } => {
                    &&& read_end >= 0
                    &&& write_end >= 0
                    &&& read_end != write_end
                    &&& !self.open.contains(read_end as int)
                    &&& !self.open.contains(write_end as int)
                },
                Event::Failed { .. } => true,
                _ => false,
            },
            Action::SetCloseOnExec { fd } | Action::SetNonBlocking { fd } | Action::Close { fd }
            | Action::Notify { fd } => match event {
                Event::Completed => self.open.contains(fd as int),
                Event::Failed { .. } => true,
                _ => false,
            },
            Action::Register { signal } => match event {
                Event::Registered { prior } => prior == self.handling.get(signal).disposition(),
                Event::Failed { .. } => true,
                _ => false,
            },
            Action::Restore { .. } | Action::ResetDefault { .. } => event is Completed || event
                is Failed,
            Action::Finish { .. } => false,
        }
    }

    /// The process after it has answered `action` with `event`.
    ///
    /// A new pipe is empty and has the flags that it was created with. A
    /// write to the write end of a pipe leaves a byte at its read end. A
    /// closed descriptor is forgotten with all that was known of it. A
    /// request that failed has changed nothing, except that a failed close is
    /// remembered.
    pub open spec fn after(self, action: Action, event: Event) -> Process {
        match (action, event) {
            (Action::CreatePipe { close_on_exec }, Event::PipeCreated { read_end, write_end }) => {
                let ends = set![read_end as int, write_end as int];
                Process {
                    open: self.open + ends,
                    close_on_exec: if close_on_exec {
                        self.close_on_exec + ends
                    } else {
                        self.close_on_exec - ends
                    },
                    non_blocking: self.non_blocking - ends,
                    unclosed: self.unclosed - ends,
                    peer: self.peer.insert(write_end as int, read_end as int),
                    waiting: self.waiting.remove(read_end as int),
                    ..self
                }
            },
            (Action::SetCloseOnExec { fd }, Event::Completed) => Process {
                close_on_exec: self.close_on_exec.insert(fd as int),
                ..self
            },
            (Action::SetNonBlocking { fd }, Event::Completed) => Process {
                non_blocking: self.non_blocking.insert(fd as int),
                ..self
            },
            (Action::Register { signal }, Event::Registered { .. }) => Process {
                handling: self.handling.set(signal, Handling::Bridge),
                kept: self.kept.set(signal, self.handling.get(signal)),
                ..self
            },
            (Action::Restore { signal }, Event::Completed) => Process {
                handling: self.handling.set(signal, self.kept.get(signal)),
                ..self
            },
            (Action::ResetDefault { signal }, Event::Completed) => Process {
                handling: self.handling.set(signal, Handling::Default),
                ..self
            },
            (Action::Close { fd }, Event::Completed) => Process {
                open: self.open.remove(fd as int),
                close_on_exec: self.close_on_exec.remove(fd as int),
                non_blocking: self.non_blocking.remove(fd as int),
                peer: self.peer.remove(fd as int),
                waiting: self.waiting.remove(fd as int),
                ..self
            },
            (Action::Notify { fd }, Event::Completed) => if self.peer.dom().contains(fd as int) {
                Process { waiting: self.waiting.insert(self.peer[fd as int]), ..self }
            } else {
                self
            },
            (Action::Close { fd }, Event::Failed { .. }) => Process {
                unclosed: self.unclosed.insert(fd as int),
                ..self
            },
            _ => self,
        }
    }

    /// Whether a read of one byte from `fd` can have the outcome `outcome`.
    ///
    /// A read fails for a bad descriptor when the descriptor is not open, and
    /// only then. From a pipe that holds a byte, a read returns one byte,
    /// unless a signal cuts it short.
    pub open spec fn allows_read(self, fd: i32, outcome: ReadOutcome) -> bool {
        &&& outcome == (ReadOutcome::Failed { error: SysError::BadDescriptor })
            <==> !self.open.contains(fd as int)
        &&& self.open.contains(fd as int) && self.waiting.contains(fd as int) ==> {
            ||| outcome == ReadOutcome::Bytes { count: 1 }
            ||| outcome == ReadOutcome::Failed { error: SysError::Interrupted }
        }
    }

    /// The process after it has answered each of `actions` in turn with the
    /// event at the same place of `events`.
    pub open spec fn after_all(self, actions: Seq<Action>, events: Seq<Event>) -> Process
        decreases actions.len(),
    {
        if actions.len() == 0 || events.len() == 0 {
            self
        } else {
            self.after(actions[0], events[0]).after_all(actions.drop_first(), events.drop_first())
        }
    }

    /// Whether the process can answer each of `actions` in turn with the
    /// event at the same place of `events`.
    pub open spec fn allows_all(self, actions: Seq<Action>, events: Seq<Event>) -> bool
        decreases actions.len(),
    {
        if actions.len() == 0 {
            events.len() == 0
        } else {
            &&& events.len() > 0
            &&& self.allows(actions[0], events[0])
            &&& self.after(actions[0], events[0]).allows_all(
                actions.drop_first(),
                events.drop_first(),
            )
        }
    }
}

} // verus!
