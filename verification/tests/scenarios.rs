//! The bridge at work in a process that is played by a small stand-in: a
//! table of signal actions, a set of open descriptors and pipes that count
//! their bytes.

use signal_bridge::{
    block_ctrl_c, deinit_os_handler, init_os_handler, is_handler_init, os_handler, Action,
    BlockOutcome, Bridge, Config, Disposition, Error, Event, Install, ReadOutcome, Signal,
    SysError, WaitStep,
};

#[derive(Clone, Copy, Debug, PartialEq, Eq)]
enum Handling {
    Default,
    Ignored,
    Foreign(u32),
    Bridge,
}

#[derive(Clone, Copy, Debug, PartialEq, Eq)]
enum Delivery {
    /// The bridge's handler ran.
    Bridged,
    /// The default action of the operating system took place.
    DefaultAction,
    /// Nothing happened.
    Dropped,
    /// Somebody else's handler ran.
    Foreign(u32),
}

struct Pipe {
    read_end: i32,
    write_end: i32,
    waiting: usize,
}

struct Process {
    handling: [Handling; 3],
    kept: [Option<Handling>; 3],
    open: Vec<i32>,
    close_on_exec: Vec<i32>,
    non_blocking: Vec<i32>,
    pipes: Vec<Pipe>,
    next_fd: i32,
    /// The process-wide state of the bridge.
    bridge: Bridge,
    /// Every request made so far.
    requests: Vec<Action>,
    /// The requests that are to fail, by their place among all requests.
    faults: Vec<(usize, SysError)>,
    /// How many of the next reads are cut short by a signal.
    interrupted_reads: usize,
}

fn slot(signal: Signal) -> usize {
    match signal {
        Signal::Interrupt => 0,
        Signal::Terminate => 1,
        Signal::Hangup => 2,
    }
}

fn disposition(handling: Handling) -> Disposition {
    match handling {
        Handling::Default => Disposition::Default,
        Handling::Ignored => Disposition::Ignore,
        Handling::Foreign(_) | Handling::Bridge => Disposition::Handler,
    }
}

impl Process {
    fn new() -> Process {
        Process {
            handling: [Handling::Default; 3],
            kept: [None; 3],
            open: vec![0, 1, 2],
            close_on_exec: Vec::new(),
            non_blocking: Vec::new(),
            pipes: Vec::new(),
            next_fd: 3,
            bridge: Bridge::uninstalled(),
            requests: Vec::new(),
            faults: Vec::new(),
            interrupted_reads: 0,
        }
    }

    fn is_open(&self, fd: i32) -> bool {
        self.open.contains(&fd)
    }

    fn configure(&mut self, fd: i32, close_on_exec: bool) -> Event {
        if !self.is_open(fd) {
            return Event::Failed { error: SysError::BadDescriptor };
        }
        if close_on_exec {
            self.close_on_exec.push(fd);
        } else {
            self.non_blocking.push(fd);
        }
        Event::Completed
    }

    fn perform(&mut self, action: Action) -> Event {
        let place = self.requests.len();
        self.requests.push(action);
        if let Some((_, error)) = self.faults.iter().find(|(at, _)| *at == place) {
            return Event::Failed { error: *error };
        }
        match action {
            Action::CreatePipe { close_on_exec } => {
                let read_end = self.next_fd;
                let write_end = self.next_fd + 1;
                self.next_fd += 2;
                self.open.push(read_end);
                self.open.push(write_end);
                if close_on_exec {
                    self.close_on_exec.push(read_end);
                    self.close_on_exec.push(write_end);
                }
                self.pipes.push(Pipe { read_end, write_end, waiting: 0 });
                Event::PipeCreated { read_end, write_end }
            }
            Action::SetCloseOnExec { fd } => self.configure(fd, true),
            Action::SetNonBlocking { fd } => self.configure(fd, false),
            Action::Register { signal } => {
                let prior = self.handling[slot(signal)];
                self.kept[slot(signal)] = Some(prior);
                self.handling[slot(signal)] = Handling::Bridge;
                Event::Registered { prior: disposition(prior) }
            }
            Action::Restore { signal } => {
                self.handling[slot(signal)] = self.kept[slot(signal)].unwrap();
                Event::Completed
            }
            Action::ResetDefault { signal } => {
                self.handling[slot(signal)] = Handling::Default;
                Event::Completed
            }
            Action::Close { fd } => {
                if !self.is_open(fd) {
                    return Event::Failed { error: SysError::BadDescriptor };
                }
                self.open.retain(|open| *open != fd);
                self.close_on_exec.retain(|open| *open != fd);
                self.non_blocking.retain(|open| *open != fd);
                Event::Completed
            }
            Action::Notify { fd } => {
                if !self.is_open(fd) {
                    return Event::Failed { error: SysError::BadDescriptor };
                }
                match self.pipes.iter_mut().find(|pipe| pipe.write_end == fd) {
                    Some(pipe) => {
                        pipe.waiting += 1;
                        Event::Completed
                    }
                    None => Event::Failed { error: SysError::BadDescriptor },
                }
            }
            Action::Finish { .. } => panic!("an operation that has ended asks for nothing"),
        }
    }

    /// One read of one byte. A read that would have to wait is a mistake of
    /// the test.
    fn read(&mut self, fd: i32) -> ReadOutcome {
        if self.interrupted_reads > 0 {
            self.interrupted_reads -= 1;
            return ReadOutcome::Failed { error: SysError::Interrupted };
        }
        if !self.is_open(fd) {
            return ReadOutcome::Failed { error: SysError::BadDescriptor };
        }
        let open = self.open.clone();
        match self.pipes.iter_mut().find(|pipe| pipe.read_end == fd) {
            Some(pipe) if pipe.waiting > 0 => {
                pipe.waiting -= 1;
                ReadOutcome::Bytes { count: 1 }
            }
            Some(pipe) if !open.contains(&pipe.write_end) => ReadOutcome::Bytes { count: 0 },
            Some(_) => panic!("the read would block"),
            None => ReadOutcome::Failed { error: SysError::Other { code: 22 } },
        }
    }

    fn init(&mut self, overwrite: bool, termination: bool, atomic_flags: bool) -> Result<(), Error> {
        let config = Config { overwrite, termination, atomic_flags };
        let mut install = Install::start(config, self.bridge);
        let mut action = install.pending();
        loop {
            if let Action::Finish { result } = action {
                return result;
            }
            let event = self.perform(action);
            assert!(install.accepts(&event));
            action = init_os_handler(&mut install, event);
            self.bridge = install.bridge();
        }
    }

    fn deinit(&mut self, termination: bool) -> Result<(), Error> {
        let mut bridge = self.bridge;
        let plan = deinit_os_handler(&mut bridge, termination)?;
        for action in plan {
            let _ = self.perform(action);
        }
        self.bridge = bridge;
        Ok(())
    }

    fn raise(&mut self, signal: Signal) -> Delivery {
        match self.handling[slot(signal)] {
            Handling::Bridge => {
                let _ = self.perform(os_handler(&self.bridge));
                Delivery::Bridged
            }
            Handling::Default => Delivery::DefaultAction,
            Handling::Ignored => Delivery::Dropped,
            Handling::Foreign(id) => Delivery::Foreign(id),
        }
    }

    /// A wait; with it, how many reads it made.
    fn wait(&mut self) -> (Result<BlockOutcome, Error>, usize) {
        let mut last = None;
        let mut reads = 0;
        loop {
            match block_ctrl_c(&self.bridge, last) {
                WaitStep::Read { fd } => {
                    reads += 1;
                    last = Some(self.read(fd));
                }
                WaitStep::Finished { outcome } => return (Ok(outcome), reads),
                WaitStep::Failed { error } => return (Err(error), reads),
            }
        }
    }
}

#[test]
fn install_wait_uninstall() {
    let mut process = Process::new();
    assert_eq!(process.init(false, false, true), Ok(()));
    assert!(is_handler_init(&process.bridge));

    assert_eq!(process.raise(Signal::Interrupt), Delivery::Bridged);
    assert_eq!(process.wait(), (Ok(BlockOutcome::Awaited), 1));

    assert_eq!(process.deinit(false), Ok(()));
    assert!(!is_handler_init(&process.bridge));
    assert_eq!(process.raise(Signal::Interrupt), Delivery::DefaultAction);
}

#[test]
fn second_install_in_a_row_is_a_conflict() {
    let mut process = Process::new();
    assert_eq!(process.init(false, false, true), Ok(()));
    let first = process.bridge;
    assert_eq!(process.init(false, false, true), Err(Error::AlreadyExists));
    // The handler of the first installation is still in place.
    assert_eq!(process.handling[0], Handling::Bridge);
    // The pipe of the first installation is still open, and the pipe of the
    // second is closed.
    assert!(process.is_open(first.read_end));
    assert!(process.is_open(first.write_end));
    assert_eq!(process.open, vec![0, 1, 2, first.read_end, first.write_end]);
    // The failed installation has left the sentinel behind.
    assert_eq!(process.bridge, Bridge::uninstalled());
}

#[test]
fn successful_install_leaves_everything_in_place() {
    for atomic_flags in [true, false] {
        for termination in [true, false] {
            let mut process = Process::new();
            process.handling[1] = Handling::Default;
            assert_eq!(process.init(false, termination, atomic_flags), Ok(()));
            let bridge = process.bridge;
            assert!(is_handler_init(&bridge));
            assert_eq!(bridge, Bridge { read_end: 3, write_end: 4 });
            assert!(process.is_open(3) && process.is_open(4));
            assert!(process.close_on_exec.contains(&3));
            assert!(process.close_on_exec.contains(&4));
            assert!(process.non_blocking.contains(&4));
            assert!(!process.non_blocking.contains(&3));
            assert_eq!(process.handling[0], Handling::Bridge);
            let others = if termination { Handling::Bridge } else { Handling::Default };
            assert_eq!(process.handling[1], others);
            assert_eq!(process.handling[2], others);
        }
    }
}

#[test]
fn failed_install_leaves_nothing_behind_wherever_it_fails() {
    for atomic_flags in [true, false] {
        for termination in [true, false] {
            let mut requests = 0;
            for place in 0..8 {
                let mut process = Process::new();
                process.handling[1] = Handling::Ignored;
                process.faults.push((place, SysError::Other { code: 100 + place as i32 }));
                let result = process.init(true, termination, atomic_flags);
                if result.is_ok() {
                    requests = place;
                    break;
                }
                assert_eq!(
                    result,
                    Err(Error::System { cause: SysError::Other { code: 100 + place as i32 } })
                );
                assert_eq!(process.bridge, Bridge::uninstalled());
                assert_eq!(
                    process.handling,
                    [Handling::Default, Handling::Ignored, Handling::Default]
                );
                assert_eq!(process.open, vec![0, 1, 2]);
            }
            let expected = 2 + if atomic_flags { 0 } else { 2 } + if termination { 3 } else { 1 };
            assert_eq!(requests, expected);
        }
    }
}

#[test]
fn conflict_leaves_the_prior_handler_in_place() {
    let mut process = Process::new();
    process.handling[0] = Handling::Foreign(7);
    assert_eq!(process.init(false, false, true), Err(Error::AlreadyExists));
    assert_eq!(process.handling[0], Handling::Foreign(7));
    assert_eq!(process.bridge, Bridge::uninstalled());
    assert_eq!(process.open, vec![0, 1, 2]);
    assert_eq!(process.raise(Signal::Interrupt), Delivery::Foreign(7));
}

#[test]
fn conflict_on_a_later_signal_gives_the_earlier_ones_back() {
    let mut process = Process::new();
    process.handling = [Handling::Default, Handling::Default, Handling::Ignored];
    assert_eq!(process.init(false, true, true), Err(Error::AlreadyExists));
    assert_eq!(process.handling, [Handling::Default, Handling::Default, Handling::Ignored]);
    assert_eq!(
        process.requests[2..],
        [
            Action::Register { signal: Signal::Interrupt },
            Action::Register { signal: Signal::Terminate },
            Action::Register { signal: Signal::Hangup },
            Action::Restore { signal: Signal::Interrupt },
            Action::Restore { signal: Signal::Terminate },
            Action::Restore { signal: Signal::Hangup },
            Action::Close { fd: 4 },
            Action::Close { fd: 3 },
        ]
    );
}

#[test]
fn signals_outside_the_option_are_never_touched() {
    let mut process = Process::new();
    process.handling = [Handling::Default, Handling::Foreign(1), Handling::Ignored];
    assert_eq!(process.init(false, false, true), Ok(()));
    assert_eq!(process.handling, [Handling::Bridge, Handling::Foreign(1), Handling::Ignored]);
    assert_eq!(process.deinit(false), Ok(()));
    assert_eq!(process.handling, [Handling::Default, Handling::Foreign(1), Handling::Ignored]);
}

#[test]
fn failure_beats_a_conflict_that_was_not_reached() {
    let mut process = Process::new();
    process.handling[0] = Handling::Foreign(7);
    process.faults.push((0, SysError::Other { code: 24 }));
    assert_eq!(
        process.init(false, false, true),
        Err(Error::System { cause: SysError::Other { code: 24 } })
    );
    assert_eq!(process.handling[0], Handling::Foreign(7));
}

#[test]
fn uninstall_without_install_is_not_found_and_does_nothing() {
    let mut process = Process::new();
    process.handling[0] = Handling::Foreign(7);
    assert_eq!(process.deinit(true), Err(Error::NotFound));
    assert_eq!(process.bridge, Bridge::uninstalled());
    assert_eq!(process.handling[0], Handling::Foreign(7));
    assert!(process.requests.is_empty());
    assert_eq!(process.open, vec![0, 1, 2]);
}

#[test]
fn install_then_uninstall_is_a_round_trip() {
    for termination in [true, false] {
        let mut process = Process::new();
        let before = process.handling;
        assert_eq!(process.init(false, termination, true), Ok(()));
        assert_eq!(process.deinit(termination), Ok(()));
        assert_eq!(process.handling, before);
        assert_eq!(process.open, vec![0, 1, 2]);
        assert_eq!(process.bridge, Bridge::uninstalled());
    }
}

#[test]
fn uninstall_after_overwrite_leaves_the_default_action() {
    let mut process = Process::new();
    process.handling[0] = Handling::Ignored;
    assert_eq!(process.init(true, false, true), Ok(()));
    assert_eq!(process.handling[0], Handling::Bridge);
    assert_eq!(process.deinit(false), Ok(()));
    assert_eq!(process.handling[0], Handling::Default);
}

#[test]
fn uninstall_goes_on_when_a_request_fails() {
    let mut process = Process::new();
    assert_eq!(process.init(false, true, true), Ok(()));
    let made = process.requests.len();
    process.faults.push((made, SysError::Other { code: 22 }));
    process.faults.push((made + 3, SysError::Other { code: 5 }));
    assert_eq!(process.deinit(true), Ok(()));
    assert_eq!(
        process.requests[made..],
        [
            Action::ResetDefault { signal: Signal::Interrupt },
            Action::ResetDefault { signal: Signal::Terminate },
            Action::ResetDefault { signal: Signal::Hangup },
            Action::Close { fd: 4 },
            Action::Close { fd: 3 },
        ]
    );
    assert_eq!(process.bridge, Bridge::uninstalled());
    assert_eq!(process.handling, [Handling::Bridge, Handling::Default, Handling::Default]);
}

#[test]
fn delivered_interrupt_ends_a_wait_with_one_read() {
    let mut process = Process::new();
    assert_eq!(process.init(false, true, false), Ok(()));
    assert_eq!(process.raise(Signal::Terminate), Delivery::Bridged);
    assert_eq!(process.wait(), (Ok(BlockOutcome::Awaited), 1));
    assert_eq!(process.raise(Signal::Hangup), Delivery::Bridged);
    assert_eq!(process.raise(Signal::Interrupt), Delivery::Bridged);
    assert_eq!(process.wait(), (Ok(BlockOutcome::Awaited), 1));
    assert_eq!(process.wait(), (Ok(BlockOutcome::Awaited), 1));
}

#[test]
fn interrupted_reads_are_made_again() {
    let mut process = Process::new();
    assert_eq!(process.init(false, false, true), Ok(()));
    assert_eq!(process.raise(Signal::Interrupt), Delivery::Bridged);
    process.interrupted_reads = 3;
    assert_eq!(process.wait(), (Ok(BlockOutcome::Awaited), 4));
}

#[test]
fn uninstall_ends_a_wait_with_handler_removed() {
    let mut process = Process::new();
    assert_eq!(process.init(false, false, true), Ok(()));
    assert_eq!(process.deinit(false), Ok(()));
    assert_eq!(process.wait(), (Ok(BlockOutcome::HandlerRemoved), 1));
}

#[test]
fn uninstall_during_an_interrupted_wait_ends_it_with_handler_removed() {
    let mut process = Process::new();
    assert_eq!(process.init(false, false, true), Ok(()));
    // The wait has asked for its first read from the installed bridge.
    let step = block_ctrl_c(&process.bridge, None);
    assert_eq!(step, WaitStep::Read { fd: 3 });
    // The read is cut short, and the bridge is taken down before the next.
    let last = Some(ReadOutcome::Failed { error: SysError::Interrupted });
    assert_eq!(process.deinit(false), Ok(()));
    let step = block_ctrl_c(&process.bridge, last);
    assert_eq!(step, WaitStep::Read { fd: -1 });
    let last = Some(process.read(-1));
    assert_eq!(
        block_ctrl_c(&process.bridge, last),
        WaitStep::Finished { outcome: BlockOutcome::HandlerRemoved }
    );
}

#[test]
fn closed_write_end_ends_a_wait_with_handler_removed() {
    let mut process = Process::new();
    assert_eq!(process.init(false, false, true), Ok(()));
    let bridge = process.bridge;
    let _ = process.perform(Action::Close { fd: bridge.write_end });
    assert_eq!(process.wait(), (Ok(BlockOutcome::HandlerRemoved), 1));
}

#[test]
fn read_failure_ends_a_wait_with_the_failure() {
    let mut process = Process::new();
    // Descriptor 0 is open and is no pipe: the stand-in fails the read.
    process.bridge = Bridge { read_end: 0, write_end: 1 };
    assert_eq!(
        process.wait(),
        (Err(Error::System { cause: SysError::Other { code: 22 } }), 1)
    );
}

#[test]
fn signal_after_uninstall_is_not_bridged() {
    let mut process = Process::new();
    assert_eq!(process.init(false, true, true), Ok(()));
    assert_eq!(process.deinit(true), Ok(()));
    assert_eq!(process.raise(Signal::Interrupt), Delivery::DefaultAction);
    assert_eq!(process.raise(Signal::Terminate), Delivery::DefaultAction);
    assert_eq!(process.raise(Signal::Hangup), Delivery::DefaultAction);
    assert!(process.pipes.iter().all(|pipe| pipe.waiting == 0));
}

#[test]
fn handler_without_a_bridge_writes_nowhere() {
    let mut process = Process::new();
    let event = process.perform(os_handler(&Bridge::uninstalled()));
    assert_eq!(event, Event::Failed { error: SysError::BadDescriptor });
}
