//! What this library assumes of the futures-channel endpoints it drives.
//! The endpoints' state is shared with their peers, so nothing is said of
//! what a call observes about the peer; only what every outcome satisfies.
use vstd::prelude::*;

use futures_channel::mpsc;
use futures_channel::mpsc::UnboundedReceiver as QueueRx;
use futures_channel::mpsc::UnboundedSender as QueueTx;
use futures_channel::oneshot;
use futures_core::future::Future;
use futures_core::stream::Stream;
use futures_sink::Sink;
use std::pin::Pin;
use std::task::{Context, Poll};

use crate::error::{ReceiveError, SendError};
use crate::once::Arrival;
use crate::queue::Pull;

verus! {

#[verifier::external_type_specification]
#[verifier::external_body]
#[verifier::reject_recursive_types(T)]
pub struct ExOneshotSender<T>(oneshot::Sender<T>);

#[verifier::external_type_specification]
#[verifier::external_body]
#[verifier::reject_recursive_types(T)]
pub struct ExOneshotReceiver<T>(oneshot::Receiver<T>);

#[verifier::external_type_specification]
#[verifier::external_body]
pub struct ExCanceled(oneshot::Canceled);

#[verifier::external_type_specification]
#[verifier::external_body]
#[verifier::reject_recursive_types(T)]
pub struct ExUnboundedSender<T>(QueueTx<T>);

#[verifier::external_type_specification]
#[verifier::external_body]
#[verifier::reject_recursive_types(T)]
pub struct ExUnboundedReceiver<T>(QueueRx<T>);

#[verifier::external_type_specification]
#[verifier::external_body]
#[verifier::reject_recursive_types(T)]
pub struct ExBoundedSender<T>(mpsc::Sender<T>);

#[verifier::external_type_specification]
#[verifier::external_body]
#[verifier::reject_recursive_types(T)]
pub struct ExBoundedReceiver<T>(mpsc::Receiver<T>);

#[verifier::external_type_specification]
#[verifier::external_body]
pub struct ExContext<'a>(Context<'a>);

/// oneshot::channel: a connected pair; it cannot fail.
pub assume_specification<T>[ oneshot::channel::<T> ]() -> (oneshot::Sender<T>, oneshot::Receiver<T>);

/// oneshot::Sender::send: when the receiver is gone the value comes back as
/// `Err(t)`, unchanged.
pub assume_specification<T>[ oneshot::Sender::<T>::send ](s: oneshot::Sender<T>, t: T) -> (r: Result<(), T>)
    ensures
        r matches Err(back) ==> back == t,
;

/// oneshot::Receiver::try_recv: `Ok(Some(_))` a value, `Ok(None)` nothing yet,
/// `Err(Canceled)` the sender is gone. Which one depends on the peer.
pub assume_specification<T>[ oneshot::Receiver::<T>::try_recv ](r: &mut oneshot::Receiver<T>) -> Result<Option<T>, oneshot::Canceled>;

/// oneshot::Receiver::close: later sends fail.
pub assume_specification<T>[ oneshot::Receiver::<T>::close ](r: &mut oneshot::Receiver<T>);

/// mpsc::unbounded: a connected pair; it cannot fail.
pub assume_specification<T>[ mpsc::unbounded::<T> ]() -> (QueueTx<T>, QueueRx<T>);

/// mpsc::UnboundedSender::is_closed: whether the channel is closed or this
/// sender has no channel any more. Depends on the peer.
pub assume_specification<T>[ QueueTx::<T>::is_closed ](s: &QueueTx<T>) -> bool;

/// mpsc::UnboundedSender::close_channel: closes the channel for every handle.
pub assume_specification<T>[ QueueTx::<T>::close_channel ](s: &QueueTx<T>);

/// mpsc::UnboundedSender::disconnect: drops this handle's hold on the channel.
pub assume_specification<T>[ QueueTx::<T>::disconnect ](s: &mut QueueTx<T>);

/// Clone of mpsc::UnboundedSender: one more handle on the same channel.
pub assume_specification<T>[ <QueueTx<T> as Clone>::clone ](s: &QueueTx<T>) -> QueueTx<T>;

/// mpsc::UnboundedReceiver::close: later sends fail; queued values stay.
pub assume_specification<T>[ QueueRx::<T>::close ](r: &mut QueueRx<T>);

/// Relies on mpsc::UnboundedSender::unbounded_send, which fails only when the
/// channel is closed or this handle disconnected, and then hands the message
/// back unchanged inside the error. It would panic only with `usize::MAX >> 1`
/// messages queued, which memory rules out long before.
#[verifier::external_body]
pub(crate) fn unbounded_push<T>(s: &QueueTx<T>, msg: T) -> (r: Result<(), T>)
    ensures
        r matches Err(back) ==> back == msg,
{
    match s.unbounded_send(msg) {
        Ok(()) => Ok(()),
        Err(err) => Err(err.into_inner()),
    }
}

/// Relies on mpsc::UnboundedReceiver::try_recv: a value, or `TryRecvError::Empty`
/// while the channel is open and drained, or `TryRecvError::Closed` once it
/// is closed and drained. Which one depends on the peers.
#[verifier::external_body]
pub(crate) fn unbounded_pull<T>(r: &mut QueueRx<T>) -> Pull<T> {
    match r.try_recv() {
        Ok(msg) => Pull::Value(msg),
        Err(mpsc::TryRecvError::Empty) => Pull::Empty,
        Err(mpsc::TryRecvError::Closed) => Pull::Ended,
    }
}

/// mpsc::channel: a connected pair; it panics unless `buffer` is below
/// `MAX_BUFFER`, which is `usize::MAX >> 2`.
pub assume_specification<T>[ mpsc::channel::<T> ](buffer: usize) -> (mpsc::Sender<T>, mpsc::Receiver<T>)
    requires
        buffer < usize::MAX >> 2,
;

/// mpsc::Sender::is_closed: whether the channel is closed or this sender has
/// no channel any more. Depends on the peer.
pub assume_specification<T>[ mpsc::Sender::<T>::is_closed ](s: &mpsc::Sender<T>) -> bool;

/// mpsc::Sender::close_channel: closes the channel for every handle.
pub assume_specification<T>[ mpsc::Sender::<T>::close_channel ](s: &mut mpsc::Sender<T>);

/// mpsc::Sender::disconnect: drops this handle's hold on the channel.
pub assume_specification<T>[ mpsc::Sender::<T>::disconnect ](s: &mut mpsc::Sender<T>);

/// Clone of mpsc::Sender: one more handle on the same channel.
pub assume_specification<T>[ <mpsc::Sender<T> as Clone>::clone ](s: &mpsc::Sender<T>) -> mpsc::Sender<T>;

/// mpsc::Receiver::close: later sends fail; queued values stay.
pub assume_specification<T>[ mpsc::Receiver::<T>::close ](r: &mut mpsc::Receiver<T>);

/// Relies on mpsc::Sender::try_send, which fails with a full error while the
/// buffer has no room for this sender, or with a disconnected one once the
/// channel is closed or this handle disconnected; either error holds the
/// message unchanged. They become `Full` and `Closed`. It would panic only
/// with `usize::MAX >> 1` messages queued, which the bound rules out.
#[verifier::external_body]
pub(crate) fn bounded_push<T>(s: &mut mpsc::Sender<T>, msg: T) -> (r: Result<(), SendError<T>>)
    ensures
        r matches Err(e) ==> (e == SendError::Full(msg) || e == SendError::Closed(msg)),
{
    match s.try_send(msg) {
        Ok(()) => Ok(()),
        Err(err) if err.is_full() => Err(SendError::Full(err.into_inner())),
        Err(err) => Err(SendError::Closed(err.into_inner())),
    }
}

/// Relies on mpsc::Receiver::try_recv: a value, or `TryRecvError::Empty`
/// while the channel is open and drained, or `TryRecvError::Closed` once it
/// is closed and drained. Which one depends on the peers.
#[verifier::external_body]
pub(crate) fn bounded_pull<T>(r: &mut mpsc::Receiver<T>) -> Pull<T> {
    match r.try_recv() {
        Ok(msg) => Pull::Value(msg),
        Err(mpsc::TryRecvError::Empty) => Pull::Empty,
        Err(mpsc::TryRecvError::Closed) => Pull::Ended,
    }
}

/// Relies on `Future::poll` of oneshot::Receiver: `Ready(Ok(_))` the value,
/// `Ready(Err(Canceled))` the sender is gone, `Pending` nothing yet (the task
/// in `cx` is woken later). Which one depends on the peer.
#[verifier::external_body]
pub(crate) fn oneshot_poll<T>(r: &mut oneshot::Receiver<T>, cx: &mut Context<'_>) -> Arrival<T> {
    match Pin::new(r).poll(cx) {
        Poll::Ready(Ok(value)) => Arrival::Value(value),
        Poll::Ready(Err(_)) => Arrival::Gone,
        Poll::Pending => Arrival::Nothing,
    }
}

/// Relies on `Stream::poll_next` of mpsc::UnboundedReceiver: `Ready(Some(_))`
/// the next value, `Ready(None)` closed and drained, `Pending` drained but
/// open (the task in `cx` is woken later). Which one depends on the peers.
#[verifier::external_body]
pub(crate) fn unbounded_poll_next<T>(r: &mut QueueRx<T>, cx: &mut Context<'_>) -> Pull<T> {
    match Pin::new(r).poll_next(cx) {
        Poll::Ready(Some(msg)) => Pull::Value(msg),
        Poll::Ready(None) => Pull::Ended,
        Poll::Pending => Pull::Empty,
    }
}

/// Relies on `Stream::poll_next` of mpsc::Receiver: `Ready(Some(_))`
/// the next value, `Ready(None)` closed and drained, `Pending` drained but
/// open (the task in `cx` is woken later). Which one depends on the peers.
#[verifier::external_body]
pub(crate) fn bounded_poll_next<T>(r: &mut mpsc::Receiver<T>, cx: &mut Context<'_>) -> Pull<T> {
    match Pin::new(r).poll_next(cx) {
        Poll::Ready(Some(msg)) => Pull::Value(msg),
        Poll::Ready(None) => Pull::Ended,
        Poll::Pending => Pull::Empty,
    }
}

/// Relies on `Sink::poll_ready` of mpsc::UnboundedSender: never pending; ready
/// with an error once the channel is closed or the handle disconnected.
/// `Some(false)` stands for the error.
#[verifier::external_body]
pub(crate) fn unbounded_poll_ready<T>(s: &mut QueueTx<T>, cx: &mut Context<'_>) -> (res: Option<bool>)
    ensures
        res is Some,
{
    match Pin::new(s).poll_ready(cx) {
        Poll::Ready(Ok(())) => Some(true),
        Poll::Ready(Err(_)) => Some(false),
        Poll::Pending => None,
    }
}

/// Relies on `Sink::poll_flush` of mpsc::UnboundedSender, which is always
/// `Ready(Ok(()))`: nothing is buffered on the sending side.
#[verifier::external_body]
pub(crate) fn unbounded_poll_flush<T>(s: &mut QueueTx<T>, cx: &mut Context<'_>) -> (res: Option<bool>)
    ensures
        res == Some(true),
{
    match Pin::new(s).poll_flush(cx) {
        Poll::Ready(Ok(())) => Some(true),
        Poll::Ready(Err(_)) => Some(false),
        Poll::Pending => None,
    }
}

/// Relies on `Sink::poll_close` of mpsc::UnboundedSender, which disconnects
/// the handle and is always `Ready(Ok(()))`.
#[verifier::external_body]
pub(crate) fn unbounded_poll_close<T>(s: &mut QueueTx<T>, cx: &mut Context<'_>) -> (res: Option<bool>)
    ensures
        res == Some(true),
{
    match Pin::new(s).poll_close(cx) {
        Poll::Ready(Ok(())) => Some(true),
        Poll::Ready(Err(_)) => Some(false),
        Poll::Pending => None,
    }
}

} // verus!
