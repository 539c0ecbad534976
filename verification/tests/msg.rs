use imvr::msg::Msg;
use imvr::msg::ReturnAddress;
use imvr::msg::ReturnerError;
use imvr::oneshot::channel;
use imvr::WindowError;

#[test]
fn file_target_is_unsupported() {
    let address = ReturnAddress::File(5);
    assert_eq!(address.send(9), Err(ReturnerError::FileError(5)));
}

#[test]
fn memory_target_delivers_through_the_channel() {
    let (tx, mut rx) = channel();
    let address = ReturnAddress::Memory(tx);
    assert_eq!(address.send(77), Ok(()));
    assert_eq!(rx.try_recv(), Ok(77u64));
}

#[test]
fn open_request_routes_its_reply_to_memory() {
    let (tx, mut rx) = channel();
    let request = Msg::open(tx);
    match request {
        Msg::OpenWindow { resp: Some(address) } => {
            assert_eq!(address.send(4), Ok(()));
        },
        _ => panic!("the open request must carry an in-memory reply address"),
    }
    assert_eq!(rx.try_recv(), Ok(4u64));
}

#[test]
fn raw_descriptor_converts_to_the_file_target() {
    let address = ReturnAddress::from(12);
    assert!(matches!(address, ReturnAddress::File(12)));
}

#[test]
fn window_error_is_a_plain_value() {
    assert_eq!(WindowError, WindowError);
}

#[test]
fn returner_messages_describe_the_failures() {
    assert_eq!(
        ReturnerError::FileError(3).message(),
        "failed to write data to the specified file descriptor"
    );
    assert_eq!(
        ReturnerError::SenderError.message(),
        "data was either already sent on this channel or the consumer hung up"
    );
    assert_eq!(
        WindowError.message(),
        "window thread encountered an error, likely the result of an OS error"
    );
}
