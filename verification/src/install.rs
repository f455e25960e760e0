//! Installing the bridge, one answer of the operating system at a time.
//!
//! An installation runs through a fixed order of requests: create the pipe,
//! mark it close-on-exec where the creating call could not, make the write end
//! non-blocking, then take over the managed signals one by one. The first
//! failure turns it around: the signals taken over so far get their prior
//! actions back, in the order in which they were taken, the pipe is closed,
//! and the installation ends with the failure.

use vstd::prelude::*;
use crate::action::{Action, End, Event};
use crate::bridge::{Bridge, INVALID_FD};
use crate::error::Error;
use crate::signal::{managed_count, managed_signal, signal_at, signal_count, Disposition};
use crate::uninstall::closing;

verus! {

/// What the caller asks for and what its platform offers.
#[derive(Clone, Copy, Debug, PartialEq, Eq, Hash)]
pub struct Config {
    /// Replace handlers that are already there instead of reporting a
    /// conflict.
    pub overwrite: bool,
    /// Manage termination and hangup as well as the interrupt.
    pub termination: bool,
    /// The platform can mark a pipe close-on-exec in the call that creates
    /// it.
    pub atomic_flags: bool,
}

/// Where an installation stands: the request that is waiting for its answer.
#[derive(Clone, Copy, Debug, PartialEq, Eq, Hash)]
pub enum Stage {
    /// The pipe is being created.
    CreatePipe,
    /// One end of the new pipe is being marked close-on-exec.
    CloseOnExec { end: End },
    /// The write end is being made non-blocking.
    NonBlocking,
    /// The managed signal at place `index` is being taken over.
    Register { index: usize },
    /// After a failure: the managed signal at place `index` is getting its
    /// prior action back.
    Restore { index: usize },
    /// After a failure: one end of the pipe is being closed.
    Close { end: End },
    /// Nothing is waiting: the installation has ended.
    Finished,
}

/// Everything an installation knows about itself.
#[derive(Clone, Copy, Debug, PartialEq, Eq, Hash)]
pub struct InstallState {
    /// What was asked for.
    pub config: Config,
    /// The process-wide state of the bridge as the signal handler and the
    /// waiting thread are to see it.
    pub bridge: Bridge,
    /// The pipe that this installation has created, the sentinel before it
    /// exists and after it is closed.
    pub pipe: Bridge,
    /// The new pipe has become the process-wide state.
    pub published: bool,
    /// How many of the managed signals have been taken over.
    pub registered: usize,
    /// The request that is waiting for its answer.
    pub stage: Stage,
    /// The failure that the installation ends with, once there is one.
    pub error: Option<Error>,
}

impl InstallState {
    /// An installation that has not asked for anything yet. `bridge` is the
    /// process-wide state that it finds.
    pub open spec fn start(config: Config, bridge: Bridge) -> InstallState {
        InstallState {
            config,
            bridge,
            pipe: Bridge::sentinel(),
            published: false,
            registered: 0,
            stage: Stage::CreatePipe,
            error: None,
        }
    }

    /// The installation has ended.
    pub open spec fn finished(self) -> bool {
        self.stage is Finished
    }

    /// How the installation ends, or would end if it ended now.
    pub open spec fn result(self) -> Result<(), Error> {
        match self.error {
            None => Ok(()),
            Some(error) => Err(error),
        }
    }

    /// The request that is waiting for its answer.
    pub open spec fn action(self) -> Action {
        match self.stage {
            Stage::CreatePipe => Action::CreatePipe { close_on_exec: self.config.atomic_flags },
            Stage::CloseOnExec { end } => Action::SetCloseOnExec { fd: self.pipe.end(end) },
            Stage::NonBlocking => Action::SetNonBlocking { fd: self.pipe.write_end },
            Stage::Register { index } => Action::Register { signal: managed_signal(index as nat) },
            Stage::Restore { index } => Action::Restore { signal: managed_signal(index as nat) },
            Stage::Close { end } => Action::Close { fd: self.pipe.end(end) },
            Stage::Finished => Action::Finish { result: self.result() },
        }
    }

    /// The answers that the waiting request can get. A new pipe comes with two
    /// valid descriptors; putting a prior action back does not fail; an ended
    /// installation takes no answer.
    pub open spec fn accepts(self, event: Event) -> bool {
        match self.stage {
            Stage::CreatePipe => match event {
                Event::PipeCreated { read_end, write_end } => read_end != INVALID_FD && write_end
                    != INVALID_FD,
                Event::Failed { .. } => true,
                _ => false,
            },
            Stage::CloseOnExec { .. } | Stage::NonBlocking | Stage::Close { .. } => event
                is Completed || event is Failed,
            Stage::Register { .. } => event is Registered || event is Failed,
            Stage::Restore { .. } => event is Completed,
            Stage::Finished => false,
        }
    }

    /// The installation turns around with `error`: first the signals taken
    /// over get their prior actions back, then the pipe is closed. A pipe
    /// that was never published is closed read end first.
    pub open spec fn unwind(self, error: Error) -> InstallState {
        let stage = if !self.published {
            Stage::Close { end: End::Read }
        } else if self.registered > 0 {
            Stage::Restore { index: 0 }
        } else {
            Stage::Close { end: End::Write }
        };
        InstallState { stage, error: Some(error), ..self }
    }

    /// The requests that undo what the installation has done so far, in the
    /// order in which a failure makes them: every signal taken over gets its
    /// prior action back, first taken first, then the write end and the read
    /// end of the pipe are closed. A pipe that was never published is closed
    /// read end first, and without a pipe there is nothing to undo.
    pub open spec fn rollback(self) -> Seq<Action> {
        if !self.pipe.installed() {
            Seq::empty()
        } else if !self.published {
            seq![
                Action::Close { fd: self.pipe.read_end },
                Action::Close { fd: self.pipe.write_end },
            ]
        } else {
            Seq::new(
                self.registered as nat,
                |i: int| Action::Restore { signal: managed_signal(i as nat) },
            ) + closing(self.pipe)
        }
    }

    /// The state after one end of the pipe was closed. With the second end
    /// the pipe is gone, and a published bridge goes back to the sentinel.
    pub open spec fn after_close(self, end: End) -> InstallState {
        if self.published {
            match end {
                End::Write => InstallState { stage: Stage::Close { end: End::Read }, ..self },
                End::Read => InstallState {
                    bridge: Bridge::sentinel(),
                    pipe: Bridge::sentinel(),
                    stage: Stage::Finished,
                    ..self
                },
            }
        } else {
            match end {
                End::Read => InstallState { stage: Stage::Close { end: End::Write }, ..self },
                End::Write => InstallState {
                    pipe: Bridge::sentinel(),
                    stage: Stage::Finished,
                    ..self
                },
            }
        }
    }

    /// The state after the signal at place `index` was taken over from
    /// `prior`. Without `overwrite` anything but the default action is a
    /// conflict, and the signal just taken is among those put back.
    pub open spec fn after_register(self, index: usize, prior: Disposition) -> InstallState {
        let taken = InstallState { registered: (index + 1) as usize, ..self };
        if !self.config.overwrite && prior != Disposition::Default {
            taken.unwind(Error::AlreadyExists)
        } else if index + 1 < managed_count(self.config.termination) {
            InstallState { stage: Stage::Register { index: (index + 1) as usize }, ..taken }
        } else {
            InstallState { stage: Stage::Finished, ..taken }
        }
    }

    /// The state after the waiting request was answered with `event`.
    pub open spec fn next(self, event: Event) -> InstallState {
        match self.stage {
            Stage::CreatePipe => match event {
                Event::PipeCreated { read_end, write_end } => {
                    let pipe = Bridge { read_end, write_end };
                    if self.config.atomic_flags {
                        InstallState {
                            bridge: pipe,
                            pipe,
                            published: true,
                            stage: Stage::NonBlocking,
                            ..self
                        }
                    } else {
                        InstallState { pipe, stage: Stage::CloseOnExec { end: End::Read }, ..self }
                    }
                },
                Event::Failed { error } => InstallState {
                    stage: Stage::Finished,
                    error: Some(Error::System { cause: error }),
                    ..self
                },
                _ => self,
            },
            Stage::CloseOnExec { end } => match event {
                Event::Failed { error } => self.unwind(Error::System { cause: error }),
                _ => match end {
                    End::Read => InstallState {
                        stage: Stage::CloseOnExec { end: End::Write },
                        ..self
                    },
                    End::Write => InstallState {
                        bridge: self.pipe,
                        published: true,
                        stage: Stage::NonBlocking,
                        ..self
                    },
                },
            },
            Stage::NonBlocking => match event {
                Event::Failed { error } => self.unwind(Error::System { cause: error }),
                _ => InstallState { stage: Stage::Register { index: 0 }, ..self },
            },
            Stage::Register { index } => match event {
                Event::Registered { prior } => self.after_register(index, prior),
                Event::Failed { error } => self.unwind(Error::System { cause: error }),
                _ => self,
            },
            Stage::Restore { index } => if index + 1 < self.registered {
                InstallState { stage: Stage::Restore { index: (index + 1) as usize }, ..self }
            } else {
                InstallState { stage: Stage::Close { end: End::Write }, ..self }
            },
            Stage::Close { end } => self.after_close(end),
            Stage::Finished => self,
        }
    }

    /// What holds of every state that an installation can reach.
    pub open spec fn wf(self) -> bool {
        &&& self.registered <= managed_count(self.config.termination)
        &&& self.published ==> self.bridge == self.pipe
        &&& match self.stage {
            Stage::CreatePipe => {
                &&& !self.published
                &&& self.registered == 0
                &&& self.error is None
                &&& self.pipe == Bridge::sentinel()
            },
            Stage::CloseOnExec { .. } => {
                &&& !self.config.atomic_flags
                &&& !self.published
                &&& self.registered == 0
                &&& self.error is None
                &&& self.pipe.installed()
            },
            Stage::NonBlocking => {
                &&& self.published
                &&& self.registered == 0
                &&& self.error is None
                &&& self.pipe.installed()
            },
            Stage::Register { index } => {
                &&& self.published
                &&& index == self.registered
                &&& index < managed_count(self.config.termination)
                &&& self.error is None
                &&& self.pipe.installed()
            },
            Stage::Restore { index } => {
                &&& self.published
                &&& index < self.registered
                &&& self.error is Some
                &&& self.pipe.installed()
            },
            Stage::Close { .. } => {
                &&& self.error is Some
                &&& self.pipe.installed()
                &&& !self.published ==> self.registered == 0 && !self.config.atomic_flags
            },
            Stage::Finished => match self.error {
                None => {
                    &&& self.published
                    &&& self.pipe.installed()
                    &&& self.registered == managed_count(self.config.termination)
                },
                Some(_) => {
                    &&& self.pipe == Bridge::sentinel()
                    &&& !self.published ==> self.registered == 0
                },
            },
        }
    }
}

/// An installation under way. Its state can be read and is changed by
/// [`init_os_handler`] alone, so it is always one that an installation can
/// reach.
#[derive(Clone, Copy, Debug)]
pub struct Install {
    state: InstallState,
}

impl View for Install {
    type V = InstallState;

    closed spec fn view(&self) -> InstallState {
        self.state
    }
}

impl Install {
    #[verifier::type_invariant]
    spec fn reachable(self) -> bool {
        self.state.wf()
    }

    /// Begins an installation. `bridge` is the process-wide state of the
    /// bridge at this moment. Nothing has been asked of the operating system
    /// yet: the first request is [`Install::pending`].
    pub fn start(config: Config, bridge: Bridge) -> (install: Install)
        ensures
            install@ == InstallState::start(config, bridge),
    {
        Install {
            state: InstallState {
                config,
                bridge,
                pipe: Bridge::uninstalled(),
                published: false,
                registered: 0,
                stage: Stage::CreatePipe,
                error: None,
            },
        }
    }

    /// The whole state.
    pub fn state(&self) -> (state: InstallState)
        ensures
            state == self@,
            state.wf(),
    {
        proof {
            use_type_invariant(self);
        }
        self.state
    }

    /// The process-wide state of the bridge as it is to be now.
    pub fn bridge(&self) -> (bridge: Bridge)
        ensures
            bridge == self@.bridge,
    {
        self.state.bridge
    }

    /// Whether the installation has ended.
    pub fn finished(&self) -> (finished: bool)
        ensures
            finished == self@.finished(),
    {
        matches!(self.state.stage, Stage::Finished)
    }

    /// The request that is waiting for its answer; `Action::Finish` with the
    /// result once the installation has ended.
    pub fn pending(&self) -> (action: Action)
        ensures
            action == self@.action(),
    {
        proof {
            use_type_invariant(self);
        }
        let state = self.state;
        match state.stage {
            Stage::CreatePipe => Action::CreatePipe { close_on_exec: state.config.atomic_flags },
            Stage::CloseOnExec { end } => Action::SetCloseOnExec { fd: state.pipe.descriptor(end) },
            Stage::NonBlocking => Action::SetNonBlocking { fd: state.pipe.write_end },
            Stage::Register { index } => Action::Register { signal: signal_at(index) },
            Stage::Restore { index } => Action::Restore { signal: signal_at(index) },
            Stage::Close { end } => Action::Close { fd: state.pipe.descriptor(end) },
            Stage::Finished => Action::Finish {
                result: match state.error {
                    None => Ok(()),
                    Some(error) => Err(error),
                },
            },
        }
    }

    /// Whether `event` is an answer that the waiting request can get.
    pub fn accepts(&self, event: &Event) -> (accepted: bool)
        ensures
            accepted == self@.accepts(*event),
    {
        match self.state.stage {
            Stage::CreatePipe => match event {
                Event::PipeCreated { read_end, write_end } => *read_end != INVALID_FD && *write_end
                    != INVALID_FD,
                Event::Failed { .. } => true,
                _ => false,
            },
            Stage::CloseOnExec { .. } | Stage::NonBlocking | Stage::Close { .. } => matches!(
                event,
                Event::Completed | Event::Failed { .. }
            ),
            Stage::Register { .. } => matches!(event, Event::Registered { .. } | Event::Failed { .. }),
            Stage::Restore { .. } => matches!(event, Event::Completed),
            Stage::Finished => false,
        }
    }
}

/// The state in which the installation turns around with `error`.
fn unwind(state: InstallState, error: Error) -> (turned: InstallState)
    ensures
        turned == state.unwind(error),
{
    let stage = if !state.published {
        Stage::Close { end: End::Read }
    } else if state.registered > 0 {
        Stage::Restore { index: 0 }
    } else {
        Stage::Close { end: End::Write }
    };
    InstallState { stage, error: Some(error), ..state }
}

/// The state after the waiting request was answered with `event`.
fn step(state: InstallState, event: Event) -> (after: InstallState)
    requires
        state.wf(),
        state.accepts(event),
    ensures
        after == state.next(event),
        after.wf(),
{
    match state.stage {
        Stage::CreatePipe => match event {
            Event::PipeCreated { read_end, write_end } => {
                let pipe = Bridge { read_end, write_end };
                if state.config.atomic_flags {
                    InstallState {
                        bridge: pipe,
                        pipe,
                        published: true,
                        stage: Stage::NonBlocking,
                        ..state
                    }
                } else {
                    InstallState { pipe, stage: Stage::CloseOnExec { end: End::Read }, ..state }
                }
            },
            Event::Failed { error } => InstallState {
                stage: Stage::Finished,
                error: Some(Error::System { cause: error }),
                ..state
            },
            _ => state,
        },
        Stage::CloseOnExec { end } => match event {
            Event::Failed { error } => unwind(state, Error::System { cause: error }),
            _ => match end {
                End::Read => InstallState { stage: Stage::CloseOnExec { end: End::Write }, ..state },
                End::Write => InstallState {
                    bridge: state.pipe,
                    published: true,
                    stage: Stage::NonBlocking,
                    ..state
                },
            },
        },
        Stage::NonBlocking => match event {
            Event::Failed { error } => unwind(state, Error::System { cause: error }),
            _ => InstallState { stage: Stage::Register { index: 0 }, ..state },
        },
        Stage::Register { index } => match event {
            Event::Registered { prior } => {
                let taken = InstallState { registered: index + 1, ..state };
                let conflict = !state.config.overwrite && !matches!(prior, Disposition::Default);
                if conflict {
                    unwind(taken, Error::AlreadyExists)
                } else if index + 1 < signal_count(state.config.termination) {
                    InstallState { stage: Stage::Register { index: index + 1 }, ..taken }
                } else {
                    InstallState { stage: Stage::Finished, ..taken }
                }
            },
            Event::Failed { error } => unwind(state, Error::System { cause: error }),
            _ => state,
        },
        Stage::Restore { index } => if index + 1 < state.registered {
            InstallState { stage: Stage::Restore { index: index + 1 }, ..state }
        } else {
            InstallState { stage: Stage::Close { end: End::Write }, ..state }
        },
        Stage::Close { end } => if state.published {
            match end {
                End::Write => InstallState { stage: Stage::Close { end: End::Read }, ..state },
                End::Read => InstallState {
                    bridge: Bridge::uninstalled(),
                    pipe: Bridge::uninstalled(),
                    stage: Stage::Finished,
                    ..state
                },
            }
        } else {
            match end {
                End::Read => InstallState { stage: Stage::Close { end: End::Write }, ..state },
                End::Write => InstallState {
                    pipe: Bridge::uninstalled(),
                    stage: Stage::Finished,
                    ..state
                },
            }
        },
        Stage::Finished => state,
    }
}

/// Takes the answer of the operating system to the waiting request and says
/// what to ask next.
///
/// A failed request, or a signal that already had a handler when overwriting
/// was not asked for, turns the installation around. It ends with
/// `Action::Finish`: with `Ok` the bridge is installed, with an error nothing
/// of this installation is left.
///
/// After each answer the caller makes [`Install::bridge`] the process-wide
/// state, before it carries out the next request: the handler is never in
/// place without the pipe that it writes to.
pub fn init_os_handler(install: &mut Install, event: Event) -> (action: Action)
    requires
        old(install)@.accepts(event),
    ensures
        final(install)@ == old(install)@.next(event),
        action == final(install)@.action(),
{
    proof {
        use_type_invariant(&*install);
    }
    install.state = step(install.state, event);
    install.pending()
}

} // verus!
