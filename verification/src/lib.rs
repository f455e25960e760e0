//! A self-pipe signal bridge, with the operating system kept at arm's length.
//!
//! A signal handler may do next to nothing. The bridge's handler writes one
//! byte into a pipe, and a thread that wants to know of the signal reads from
//! the other end.
//!
//! Installing the bridge, tearing it down and waiting on it are written here as
//! decisions: each function looks at what the operating system last answered
//! and says what has to be asked of it next. The caller owns the process-wide
//! pipe and performs the system calls; this crate decides their order, what a
//! failure undoes, and what each answer means.
//!
//! - [`init_os_handler`] installs the bridge, one answer at a time.
//! - [`deinit_os_handler`] lists what takes it down.
//! - [`block_ctrl_c`] decides each step of a wait.
//! - [`is_handler_init`] tells whether a bridge is installed.
//! - [`os_handler`] says what the handler does with a signal.
//!
//! There is one bridge to a process. Installing and tearing down must not
//! overlap: the caller makes one such call at a time. A wait may go on while
//! signals arrive and while the bridge is taken down.
//!
//! The module [`laws`] holds what is proved of all this over a model of the
//! process, which is in [`process`].

pub mod action;
pub mod bridge;
pub mod error;
pub mod install;
pub mod laws;
pub mod process;
pub mod signal;
pub mod uninstall;
pub mod wait;

pub use action::{Action, End, Event};
pub use bridge::{is_handler_init, os_handler, Bridge, INVALID_FD};
pub use error::{Error, SysError};
pub use install::{init_os_handler, Config, Install, InstallState, Stage};
pub use signal::{Disposition, Signal};
pub use uninstall::{close_pipe, deinit_os_handler};
pub use wait::{block_ctrl_c, BlockOutcome, ReadOutcome, WaitStep};
