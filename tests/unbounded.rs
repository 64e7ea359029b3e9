use aktoro_channel::{unbounded, CloseError, DisconnectError, ReceiveError, SendError};

#[test]
fn unbounded_keeps_send_order() {
    let (mut send, mut recv) = unbounded::<u32>();
    assert_eq!(send.send(1), Ok(()));
    assert_eq!(send.send(2), Ok(()));
    assert_eq!(send.send(3), Ok(()));
    assert_eq!(recv.try_recv(), Ok(1));
    assert_eq!(recv.try_recv(), Ok(2));
    assert_eq!(recv.try_recv(), Ok(3));
    assert_eq!(recv.try_recv(), Err(ReceiveError::Empty));
    assert!(!recv.closed);
}

#[test]
fn unbounded_drained_after_disconnect_is_closed() {
    let (mut send, mut recv) = unbounded::<u32>();
    assert_eq!(send.send(1), Ok(()));
    assert_eq!(send.send(2), Ok(()));
    assert_eq!(send.send(3), Ok(()));
    assert_eq!(send.disconnect(), Ok(()));
    assert_eq!(recv.try_recv(), Ok(1));
    assert_eq!(recv.try_recv(), Ok(2));
    assert_eq!(recv.try_recv(), Ok(3));
    assert_eq!(recv.try_recv(), Err(ReceiveError::Closed));
    assert!(recv.closed);
    assert_eq!(recv.try_recv(), Err(ReceiveError::Closed));
}

#[test]
fn unbounded_disconnect_is_local_to_handle() {
    let (mut send, mut recv) = unbounded::<u32>();
    let mut other = send.clone();
    assert_eq!(send.disconnect(), Ok(()));
    assert!(send.disconnected && !send.closed);
    assert_eq!(send.send(5), Err(SendError::Disconnected(5)));
    assert_eq!(send.disconnect(), Err(DisconnectError::Disconnected));
    assert_eq!(send.close(), Err(CloseError::Disconnected));
    assert_eq!(other.send(6), Ok(()));
    assert!(!other.disconnected);
    assert_eq!(recv.try_recv(), Ok(6));
    assert_eq!(recv.try_recv(), Err(ReceiveError::Empty));
}

#[test]
fn unbounded_sender_close_is_idempotent() {
    let (mut send, mut recv) = unbounded::<u32>();
    let mut other = send.clone();
    assert_eq!(send.close(), Ok(()));
    assert!(send.closed);
    assert_eq!(send.close(), Err(CloseError::Closed));
    assert_eq!(send.disconnect(), Err(DisconnectError::Closed));
    assert_eq!(send.send(1), Err(SendError::Closed(1)));
    assert_eq!(other.send(2), Err(SendError::Closed(2)));
    assert!(other.closed);
    assert_eq!(other.close(), Err(CloseError::Closed));
    assert_eq!(recv.try_recv(), Err(ReceiveError::Closed));
    assert!(recv.closed);
}

#[test]
fn unbounded_receiver_close_is_idempotent() {
    let (mut send, mut recv) = unbounded::<u32>();
    assert_eq!(send.send(1), Ok(()));
    assert_eq!(recv.close(), Ok(()));
    assert!(recv.closed);
    assert_eq!(recv.close(), Err(CloseError::Closed));
    assert_eq!(recv.try_recv(), Err(ReceiveError::Closed));
    assert_eq!(send.send(2), Err(SendError::Closed(2)));
    assert!(send.closed && !send.disconnected);
    assert_eq!(send.send(3), Err(SendError::Closed(3)));
}

#[test]
fn unbounded_send_to_dropped_receiver() {
    let (mut send, recv) = unbounded::<String>();
    drop(recv);
    assert_eq!(send.send(String::from("x")), Err(SendError::Closed(String::from("x"))));
    assert!(send.closed);
    assert_eq!(send.disconnect(), Err(DisconnectError::Closed));
}

#[test]
fn unbounded_disconnect_after_receiver_dropped() {
    let (mut send, recv) = unbounded::<u8>();
    drop(recv);
    assert_eq!(send.disconnect(), Err(DisconnectError::Closed));
    assert!(send.closed && !send.disconnected);
}

#[test]
fn unbounded_close_after_receiver_dropped() {
    let (mut send, recv) = unbounded::<u8>();
    drop(recv);
    assert_eq!(send.close(), Err(CloseError::Closed));
    assert!(send.closed);
}

#[test]
fn unbounded_all_senders_dropped_ends_receiver() {
    let (send, mut recv) = unbounded::<u8>();
    let other = send.clone();
    drop(send);
    assert_eq!(recv.try_recv(), Err(ReceiveError::Empty));
    drop(other);
    assert_eq!(recv.try_recv(), Err(ReceiveError::Closed));
    assert!(recv.closed);
    assert_eq!(recv.close(), Err(CloseError::Closed));
}

#[test]
fn unbounded_clone_keeps_flags() {
    let (mut send, recv) = unbounded::<u8>();
    drop(recv);
    assert_eq!(send.send(1), Err(SendError::Closed(1)));
    let copy = send.clone();
    assert!(copy.closed && !copy.disconnected);
    assert!(copy.is_closed() && !copy.is_disconnected());
}

#[test]
fn unbounded_flag_getters_follow_flags() {
    let (mut send, mut recv) = unbounded::<u8>();
    assert!(!send.is_closed() && !send.is_disconnected() && !recv.is_closed());
    assert_eq!(send.disconnect(), Ok(()));
    assert!(send.is_disconnected() && !send.is_closed());
    assert_eq!(recv.try_recv(), Err(ReceiveError::Closed));
    assert!(recv.is_closed());
}
