use imvr::oneshot::ChannelCore;
use imvr::oneshot::ChannelState;
use imvr::oneshot::TryReceiveError;

#[test]
fn fresh_core_is_not_ready() {
    let mut core: ChannelCore<u64> = ChannelCore::new();
    assert_eq!(core.state, ChannelState::NotReady);
    assert!(core.is_waiting());
    assert_eq!(core.take_step(), Err(TryReceiveError::NotReady));
}

#[test]
fn store_then_take_yields_the_value_exactly_once() {
    let mut core: ChannelCore<u64> = ChannelCore::new();
    core.store_step(9);
    assert_eq!(core.state, ChannelState::Finished);
    assert!(!core.is_waiting());
    assert_eq!(core.take_step(), Ok(9));
    assert_eq!(core.take_step(), Err(TryReceiveError::AlreadyRetrieved));
    assert_eq!(core.state, ChannelState::Finished);
}

#[test]
fn disconnect_from_not_ready_is_terminal() {
    let mut core: ChannelCore<i32> = ChannelCore::new();
    core.disconnect_step();
    assert_eq!(core.state, ChannelState::Disconnected);
    assert!(!core.is_waiting());
    assert_eq!(core.take_step(), Err(TryReceiveError::Disconnected));
    assert_eq!(core.take_step(), Err(TryReceiveError::Disconnected));
}

#[test]
fn disconnect_after_store_is_a_no_op() {
    let mut core: ChannelCore<u8> = ChannelCore::new();
    core.store_step(3);
    core.disconnect_step();
    assert_eq!(core.state, ChannelState::Finished);
    assert_eq!(core.take_step(), Ok(3));
}

#[test]
fn disconnect_twice_stays_disconnected() {
    let mut core: ChannelCore<u8> = ChannelCore::new();
    core.disconnect_step();
    core.disconnect_step();
    assert_eq!(core.state, ChannelState::Disconnected);
}

#[test]
fn take_step_leaves_the_state_flag_alone() {
    let mut core: ChannelCore<u16> = ChannelCore::new();
    assert_eq!(core.take_step(), Err(TryReceiveError::NotReady));
    assert_eq!(core.state, ChannelState::NotReady);
    core.store_step(1);
    let _ = core.take_step();
    assert_eq!(core.state, ChannelState::Finished);
}
