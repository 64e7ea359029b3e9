use std::sync::Arc;
use std::task::{Context, Wake, Waker};

use aktoro_channel::{bounded, once, unbounded, CloseError, ReceiveError, SendError};

struct Idle;

impl Wake for Idle {
    fn wake(self: Arc<Self>) {}
}

fn idle_waker() -> Waker {
    Waker::from(Arc::new(Idle))
}

#[test]
fn once_poll_pending_then_value() {
    let waker = idle_waker();
    let mut cx = Context::from_waker(&waker);
    let (mut send, mut recv) = once::<u8>();
    assert_eq!(recv.poll_recv(&mut cx), None);
    assert!(!recv.received && !recv.closed && !recv.cancelled);
    assert_eq!(send.send(42), Ok(()));
    assert_eq!(recv.poll_recv(&mut cx), Some(Ok(42)));
    assert!(recv.received);
    assert_eq!(recv.poll_recv(&mut cx), Some(Err(ReceiveError::Closed)));
    assert_eq!(recv.try_recv(), Err(ReceiveError::Closed));
}

#[test]
fn once_poll_after_sender_dropped() {
    let waker = idle_waker();
    let mut cx = Context::from_waker(&waker);
    let (send, mut recv) = once::<u8>();
    drop(send);
    assert_eq!(recv.poll_recv(&mut cx), Some(Err(ReceiveError::Closed)));
    assert!(recv.cancelled && !recv.received);
    assert_eq!(recv.close(), Err(CloseError::Closed));
    assert!(!recv.closed);
}

#[test]
fn unbounded_sink_flush_and_close_are_immediate() {
    let waker = idle_waker();
    let mut cx = Context::from_waker(&waker);
    let (mut send, recv) = unbounded::<u32>();
    drop(recv);
    assert_eq!(send.poll_flush(&mut cx), Some(Ok(())));
    assert!(!send.closed && !send.disconnected);
    assert_eq!(send.poll_close(&mut cx), Some(Ok(())));
    assert!(!send.closed && !send.disconnected);
}

#[test]
fn once_abandoned_poll_leaves_receiver_usable() {
    let waker = idle_waker();
    let mut cx = Context::from_waker(&waker);
    let (mut send, mut recv) = once::<u8>();
    assert_eq!(recv.poll_recv(&mut cx), None);
    assert_eq!(send.send(5), Ok(()));
    assert_eq!(recv.try_recv(), Ok(5));
}

#[test]
fn unbounded_stream_ends_for_good() {
    let waker = idle_waker();
    let mut cx = Context::from_waker(&waker);
    let (mut send, mut recv) = unbounded::<u32>();
    assert_eq!(recv.poll_next(&mut cx), None);
    assert_eq!(send.send(1), Ok(()));
    assert_eq!(send.send(2), Ok(()));
    assert_eq!(recv.poll_next(&mut cx), Some(Some(1)));
    assert_eq!(recv.poll_next(&mut cx), Some(Some(2)));
    assert!(!recv.is_terminated());
    drop(send);
    assert_eq!(recv.poll_next(&mut cx), Some(None));
    assert!(recv.is_terminated() && recv.closed);
    assert_eq!(recv.poll_next(&mut cx), Some(None));
    assert_eq!(recv.try_recv(), Err(ReceiveError::Closed));
}

#[test]
fn bounded_stream_ends_for_good() {
    let waker = idle_waker();
    let mut cx = Context::from_waker(&waker);
    let (mut send, mut recv) = bounded::<u32>(2);
    assert_eq!(send.send(7), Ok(()));
    assert_eq!(recv.poll_next(&mut cx), Some(Some(7)));
    assert_eq!(recv.poll_next(&mut cx), None);
    assert_eq!(send.close(), Ok(()));
    assert_eq!(recv.poll_next(&mut cx), Some(None));
    assert!(recv.is_terminated());
    assert_eq!(recv.poll_next(&mut cx), Some(None));
}

#[test]
fn unbounded_sink_phases() {
    let waker = idle_waker();
    let mut cx = Context::from_waker(&waker);
    let (mut send, mut recv) = unbounded::<u32>();
    assert_eq!(send.poll_ready(&mut cx), Some(Ok(())));
    assert_eq!(send.start_send(5), Ok(()));
    assert_eq!(send.poll_flush(&mut cx), Some(Ok(())));
    assert_eq!(recv.try_recv(), Ok(5));
    assert_eq!(send.poll_close(&mut cx), Some(Ok(())));
    assert_eq!(send.poll_ready(&mut cx), Some(Err(SendError::Closed(()))));
    assert!(send.closed);
    assert_eq!(send.send(6), Err(SendError::Closed(6)));
}

#[test]
fn unbounded_sink_after_disconnect_reports_disconnected() {
    let waker = idle_waker();
    let mut cx = Context::from_waker(&waker);
    let (mut send, _recv) = unbounded::<u32>();
    assert_eq!(send.disconnect(), Ok(()));
    assert_eq!(send.poll_ready(&mut cx), Some(Err(SendError::Disconnected(()))));
    assert_eq!(send.start_send(1), Err(SendError::Disconnected(())));
    assert!(send.disconnected && !send.closed);
}

#[test]
fn unbounded_sink_after_receiver_dropped() {
    let (mut send, recv) = unbounded::<u32>();
    drop(recv);
    assert_eq!(send.start_send(1), Err(SendError::Closed(())));
    assert!(send.closed);
}
