use aktoro_channel::{bounded, CloseError, DisconnectError, ReceiveError, SendError};

#[test]
fn bounded_full_is_not_latched() {
    let (mut send, mut recv) = bounded::<u32>(1);
    assert_eq!(send.send(1), Ok(()));
    assert_eq!(send.send(2), Ok(()));
    assert_eq!(send.send(3), Err(SendError::Full(3)));
    assert!(!send.closed && !send.disconnected);
    assert!(!send.is_closed() && !send.is_disconnected() && !recv.is_closed());
    assert_eq!(recv.try_recv(), Ok(1));
    assert_eq!(send.send(3), Ok(()));
    assert_eq!(recv.try_recv(), Ok(2));
    assert_eq!(recv.try_recv(), Ok(3));
    assert_eq!(recv.try_recv(), Err(ReceiveError::Empty));
}

#[test]
fn bounded_zero_buffer_holds_one_per_sender() {
    let (mut send, mut recv) = bounded::<u32>(0);
    assert_eq!(send.send(10), Ok(()));
    let err = send.send(11).unwrap_err();
    assert!(err.is_full());
    assert_eq!(*err.inner(), 11);
    assert_eq!(recv.try_recv(), Ok(10));
    assert_eq!(send.send(11), Ok(()));
    assert_eq!(recv.try_recv(), Ok(11));
}

#[test]
fn bounded_keeps_send_order() {
    let (mut send, mut recv) = bounded::<u32>(4);
    for i in 0..4 {
        assert_eq!(send.send(i), Ok(()));
    }
    for i in 0..4 {
        assert_eq!(recv.try_recv(), Ok(i));
    }
    assert_eq!(recv.try_recv(), Err(ReceiveError::Empty));
}

#[test]
fn bounded_disconnect_is_local_to_handle() {
    let (mut send, mut recv) = bounded::<u32>(2);
    let mut other = send.clone();
    assert_eq!(send.disconnect(), Ok(()));
    assert_eq!(send.send(1), Err(SendError::Disconnected(1)));
    assert_eq!(send.disconnect(), Err(DisconnectError::Disconnected));
    assert_eq!(send.close(), Err(CloseError::Disconnected));
    assert_eq!(other.send(2), Ok(()));
    assert_eq!(recv.try_recv(), Ok(2));
    drop(other);
    assert_eq!(recv.try_recv(), Err(ReceiveError::Closed));
    assert!(recv.closed);
}

#[test]
fn bounded_close_from_either_side() {
    let (mut send, mut recv) = bounded::<u32>(2);
    assert_eq!(recv.close(), Ok(()));
    assert_eq!(recv.close(), Err(CloseError::Closed));
    assert_eq!(send.send(1), Err(SendError::Closed(1)));
    assert!(send.closed);
    assert_eq!(send.close(), Err(CloseError::Closed));
    assert_eq!(recv.try_recv(), Err(ReceiveError::Closed));

    let (mut send, mut recv) = bounded::<u32>(2);
    assert_eq!(send.close(), Ok(()));
    assert_eq!(send.send(1), Err(SendError::Closed(1)));
    assert_eq!(send.disconnect(), Err(DisconnectError::Closed));
    assert_eq!(recv.try_recv(), Err(ReceiveError::Closed));
}
