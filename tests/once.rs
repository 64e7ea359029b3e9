use aktoro_channel::{once, CloseError, ReceiveError, SendError};

#[test]
fn works() {
    let (mut send, mut recv) = once::<u8>();

    assert!(!send.sent);
    assert!(!send.cancelled);
    assert_eq!(recv.try_recv(), Err(ReceiveError::Empty));
    assert!(!recv.received);
    assert!(!recv.closed);
    assert!(!recv.cancelled);

    assert_eq!(send.send(42), Ok(()));
    assert!(send.sent);
    assert!(!send.cancelled);
    assert_eq!(send.send(24), Err(SendError::Full(24)));

    assert_eq!(recv.try_recv(), Ok(42));
    assert!(recv.received);
    assert!(!recv.closed);
    assert!(!recv.cancelled);
    assert_eq!(recv.try_recv(), Err(ReceiveError::Closed));
}

#[test]
fn cancel_send() {
    let (send, mut recv) = once::<u8>();

    assert!(!send.sent);
    assert!(!send.cancelled);
    assert_eq!(recv.try_recv(), Err(ReceiveError::Empty));
    assert!(!recv.received);
    assert!(!recv.closed);
    assert!(!recv.cancelled);

    drop(send);

    assert_eq!(recv.try_recv(), Err(ReceiveError::Closed));
    assert!(!recv.received);
    assert!(!recv.closed);
    assert!(recv.cancelled);
    assert_eq!(recv.try_recv(), Err(ReceiveError::Closed));
}

#[test]
fn cancel_recv() {
    let (mut send, mut recv) = once::<u8>();

    assert!(!send.sent);
    assert!(!send.cancelled);
    assert_eq!(recv.try_recv(), Err(ReceiveError::Empty));
    assert!(!recv.received);
    assert!(!recv.closed);
    assert!(!recv.cancelled);

    drop(recv);

    assert_eq!(send.send(42), Err(SendError::Closed(42)));
    assert!(!send.sent);
    assert!(send.cancelled);
    assert_eq!(send.send(24), Err(SendError::Closed(24)));
}

#[test]
fn close() {
    let (mut send, mut recv) = once::<u8>();

    assert!(!send.sent);
    assert!(!send.cancelled);
    assert_eq!(recv.try_recv(), Err(ReceiveError::Empty));
    assert!(!recv.received);
    assert!(!recv.closed);
    assert!(!recv.cancelled);

    assert_eq!(recv.close(), Ok(()));
    assert!(recv.closed);
    assert_eq!(recv.close(), Err(CloseError::Closed));

    assert_eq!(send.send(42), Err(SendError::Closed(42)));
    assert!(!send.sent);
    assert!(send.cancelled);
    assert_eq!(send.send(24), Err(SendError::Closed(24)));

    assert_eq!(recv.try_recv(), Err(ReceiveError::Closed));
    assert!(!recv.received);
    assert!(recv.closed);
    assert!(!recv.cancelled);
}

#[test]
fn once_send_then_receive_scenario() {
    let (mut send, mut recv) = once::<u32>();
    assert_eq!(send.send(42), Ok(()));
    assert_eq!(recv.try_recv(), Ok(42));
    assert_eq!(recv.try_recv(), Err(ReceiveError::Closed));
    assert_eq!(send.send(7), Err(SendError::Full(7)));
    assert!(send.sent && !send.cancelled);
}

#[test]
fn once_only_first_send_succeeds() {
    let (mut send, mut recv) = once::<u32>();
    assert_eq!(send.send(1), Ok(()));
    for i in 2..6 {
        assert_eq!(send.send(i), Err(SendError::Full(i)));
    }
    assert_eq!(recv.try_recv(), Ok(1));
    for _ in 0..3 {
        assert_eq!(recv.try_recv(), Err(ReceiveError::Closed));
    }
    assert!(recv.received && !recv.cancelled);
}

#[test]
fn once_value_is_handed_over_unchanged() {
    let (mut send, mut recv) = once::<String>();
    assert_eq!(send.send(String::from("hand over")), Ok(()));
    assert_eq!(recv.try_recv(), Ok(String::from("hand over")));
}

#[test]
fn once_send_to_dropped_receiver_returns_value() {
    let (mut send, recv) = once::<String>();
    drop(recv);
    let err = send.send(String::from("back")).unwrap_err();
    assert!(err.is_closed());
    assert_eq!(err.into_inner(), String::from("back"));
    assert!(send.cancelled && !send.sent);
}

#[test]
fn once_close_after_value_arrived() {
    let (mut send, mut recv) = once::<u8>();
    assert_eq!(send.send(9), Ok(()));
    assert_eq!(recv.close(), Ok(()));
    assert!(recv.closed);
    assert_eq!(recv.try_recv(), Err(ReceiveError::Closed));
    assert_eq!(recv.close(), Err(CloseError::Closed));
}

#[test]
fn once_close_after_sender_dropped() {
    let (send, mut recv) = once::<u8>();
    drop(send);
    assert_eq!(recv.try_recv(), Err(ReceiveError::Closed));
    assert!(recv.cancelled);
    assert_eq!(recv.close(), Err(CloseError::Closed));
    assert!(!recv.closed);
    assert!(recv.cancelled);
    assert_eq!(recv.close(), Err(CloseError::Closed));
}

#[test]
fn once_flag_getters_follow_flags() {
    let (mut send, mut recv) = once::<u8>();
    assert!(!send.is_sent() && !send.is_cancelled());
    assert!(!recv.is_received() && !recv.is_closed() && !recv.is_cancelled());
    assert_eq!(send.send(3), Ok(()));
    assert!(send.is_sent() && !send.is_cancelled());
    assert_eq!(recv.try_recv(), Ok(3));
    assert!(recv.is_received() && !recv.is_closed() && !recv.is_cancelled());
    assert_eq!(recv.close(), Ok(()));
    assert!(recv.is_received() && recv.is_closed());
}
