use std::time::Duration;
use std::time::Instant;

use imvr::oneshot::channel;
use imvr::oneshot::ReceiveError;
use imvr::oneshot::TryReceiveError;

#[test]
fn send_then_recv_delivers_value() {
    let (tx, rx) = channel();
    tx.send(42u64);
    assert_eq!(rx.recv(), Ok(42u64));
}

#[test]
fn second_attempt_reports_already_retrieved() {
    let (tx, mut rx) = channel();
    tx.send(7u32);
    assert_eq!(rx.try_recv(), Ok(7u32));
    assert_eq!(rx.try_recv(), Err(TryReceiveError::AlreadyRetrieved));
    assert_eq!(rx.try_recv(), Err(TryReceiveError::AlreadyRetrieved));
}

#[test]
fn drop_without_send_reports_disconnected() {
    let (tx, rx) = channel::<u64>();
    drop(tx);
    assert_eq!(rx.recv(), Err(ReceiveError::Disconnected));
}

#[test]
fn drop_without_send_reports_disconnected_on_poll() {
    let (tx, mut rx) = channel::<String>();
    drop(tx);
    assert_eq!(rx.try_recv(), Err(TryReceiveError::Disconnected));
    assert_eq!(rx.try_recv(), Err(TryReceiveError::Disconnected));
}

#[test]
fn try_recv_reports_not_ready_and_keeps_channel_usable() {
    let (tx, mut rx) = channel();
    assert_eq!(rx.try_recv(), Err(TryReceiveError::NotReady));
    assert_eq!(rx.try_recv(), Err(TryReceiveError::NotReady));
    tx.send(5u8);
    assert_eq!(rx.try_recv(), Ok(5u8));
}

#[test]
fn try_recv_returns_promptly_in_all_three_states() {
    let started = Instant::now();

    let (tx, mut rx) = channel();
    assert_eq!(rx.try_recv(), Err(TryReceiveError::NotReady));
    tx.send(1u64);
    assert_eq!(rx.try_recv(), Ok(1u64));

    let (tx2, mut rx2) = channel::<u64>();
    drop(tx2);
    assert_eq!(rx2.try_recv(), Err(TryReceiveError::Disconnected));

    assert!(started.elapsed() < Duration::from_secs(1));
}

#[test]
fn timeout_elapses_without_consuming_the_channel() {
    let (tx, mut rx) = channel();
    let wait = Duration::from_millis(60);
    let started = Instant::now();
    assert_eq!(rx.recv_timeout(wait), Err(TryReceiveError::NotReady));
    assert!(started.elapsed() >= Duration::from_millis(50));
    tx.send(9i64);
    assert_eq!(rx.recv_timeout(wait), Ok(9i64));
}

#[test]
fn recv_timeout_returns_pending_value_at_once() {
    let (tx, mut rx) = channel();
    tx.send(3u64);
    let started = Instant::now();
    assert_eq!(rx.recv_timeout(Duration::from_secs(10)), Ok(3u64));
    assert!(started.elapsed() < Duration::from_secs(5));
}

#[test]
fn recv_deadline_in_the_past_misses_immediately() {
    let (_tx, mut rx) = channel::<u64>();
    let deadline = Instant::now();
    assert_eq!(rx.recv_deadline(deadline), Err(TryReceiveError::NotReady));
}

#[test]
fn recv_deadline_returns_pending_value() {
    let (tx, mut rx) = channel();
    tx.send(11u64);
    let deadline = Instant::now() + Duration::from_secs(5);
    assert_eq!(rx.recv_deadline(deadline), Ok(11u64));
}

#[test]
fn completed_send_is_not_clobbered_by_sender_retirement() {
    // `send` consumes the sender, so its retirement logic runs right after
    // the value is stored; the value must still come out, and the second
    // attempt must report the retrieval, not a disconnect.
    let (tx, mut rx) = channel();
    tx.send(123u64);
    assert_eq!(rx.try_recv(), Ok(123u64));
    assert_eq!(rx.try_recv(), Err(TryReceiveError::AlreadyRetrieved));
}

#[test]
fn dropping_the_receiver_first_leaves_send_harmless() {
    let (tx, rx) = channel();
    drop(rx);
    tx.send(17u64);
}

#[test]
fn recv_after_send_of_owned_value() {
    let (tx, rx) = channel();
    tx.send(String::from("reply"));
    assert_eq!(rx.recv(), Ok(String::from("reply")));
}

#[test]
fn messages_describe_the_receive_conditions() {
    assert_eq!(
        ReceiveError::Disconnected.message(),
        "the sender of the oneshot channel was dropped without setting a value"
    );
    assert_eq!(
        ReceiveError::AlreadyRetrieved.message(),
        "the value of the oneshot channel has already been retrieved"
    );
    assert_eq!(
        TryReceiveError::NotReady.message(),
        "the value of the oneshot channel is not available yet"
    );
    assert_eq!(
        TryReceiveError::Disconnected.message(),
        ReceiveError::Disconnected.message()
    );
    assert_eq!(
        TryReceiveError::AlreadyRetrieved.message(),
        ReceiveError::AlreadyRetrieved.message()
    );
}
