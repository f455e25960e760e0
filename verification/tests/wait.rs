//! The steps of a wait.

use signal_bridge::{block_ctrl_c, BlockOutcome, Bridge, Error, ReadOutcome, SysError, WaitStep};

fn bridge() -> Bridge {
    Bridge { read_end: 3, write_end: 4 }
}

#[test]
fn wait_begins_with_a_read_from_the_read_end() {
    assert_eq!(block_ctrl_c(&bridge(), None), WaitStep::Read { fd: 3 });
}

#[test]
fn one_byte_is_a_signal() {
    let last = Some(ReadOutcome::Bytes { count: 1 });
    assert_eq!(
        block_ctrl_c(&bridge(), last),
        WaitStep::Finished { outcome: BlockOutcome::Awaited }
    );
}

#[test]
fn no_byte_means_the_bridge_is_gone() {
    let last = Some(ReadOutcome::Bytes { count: 0 });
    assert_eq!(
        block_ctrl_c(&bridge(), last),
        WaitStep::Finished { outcome: BlockOutcome::HandlerRemoved }
    );
}

#[test]
fn any_other_count_means_the_bridge_is_gone() {
    let last = Some(ReadOutcome::Bytes { count: 2 });
    assert_eq!(
        block_ctrl_c(&bridge(), last),
        WaitStep::Finished { outcome: BlockOutcome::HandlerRemoved }
    );
}

#[test]
fn bad_descriptor_means_the_bridge_is_gone() {
    let last = Some(ReadOutcome::Failed { error: SysError::BadDescriptor });
    assert_eq!(
        block_ctrl_c(&bridge(), last),
        WaitStep::Finished { outcome: BlockOutcome::HandlerRemoved }
    );
}

#[test]
fn interrupted_read_is_made_again() {
    let last = Some(ReadOutcome::Failed { error: SysError::Interrupted });
    assert_eq!(block_ctrl_c(&bridge(), last), WaitStep::Read { fd: 3 });
}

#[test]
fn interrupted_read_is_made_again_from_the_bridge_as_it_is_now() {
    let last = Some(ReadOutcome::Failed { error: SysError::Interrupted });
    let gone = Bridge { read_end: -1, write_end: -1 };
    assert_eq!(block_ctrl_c(&gone, last), WaitStep::Read { fd: -1 });
    let other = Bridge { read_end: 8, write_end: 9 };
    assert_eq!(block_ctrl_c(&other, last), WaitStep::Read { fd: 8 });
}

#[test]
fn any_other_failure_ends_the_wait_with_it() {
    let last = Some(ReadOutcome::Failed { error: SysError::Other { code: 5 } });
    assert_eq!(
        block_ctrl_c(&bridge(), last),
        WaitStep::Failed { error: Error::System { cause: SysError::Other { code: 5 } } }
    );
}

#[test]
fn wait_without_a_bridge_reads_from_the_sentinel() {
    let gone = Bridge { read_end: -1, write_end: -1 };
    assert_eq!(block_ctrl_c(&gone, None), WaitStep::Read { fd: -1 });
}
