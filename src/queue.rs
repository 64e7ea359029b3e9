//! The state machine shared by the sides of the multi-value channels.
use vstd::prelude::*;

use crate::error::{CloseError, DisconnectError, ReceiveError, SendError};

verus! {

/// The state of a multi-value sender: whether it saw the channel closed, and
/// whether it detached itself.
pub struct QueueSenderState {
    pub closed: bool,
    pub disconnected: bool,
}

/// The state of a multi-value receiver: whether the channel is closed for it,
/// and whether it still holds the capability to receive.
pub struct QueueReceiverState {
    pub closed: bool,
    pub armed: bool,
}

/// What the transport answers to a receive attempt.
pub enum Pull<D> {
    /// The next queued value.
    Value(D),
    /// The queue is drained but the channel is open.
    Empty,
    /// The queue is drained and the channel closed: nothing more will come.
    Ended,
}

impl QueueSenderState {
    /// The two terminal causes exclude each other.
    pub open spec fn wf(self) -> bool {
        !(self.closed && self.disconnected)
    }

    /// Whether this sender may still reach the transport.
    pub open spec fn open(self) -> bool {
        !self.closed && !self.disconnected
    }
}

impl QueueReceiverState {
    /// The capability is held exactly while the channel is not closed.
    pub open spec fn wf(self) -> bool {
        self.armed == !self.closed
    }
}

/// The state of a fresh sender.
pub open spec fn fresh_sender() -> QueueSenderState {
    QueueSenderState { closed: false, disconnected: false }
}

/// The state of a fresh receiver.
pub open spec fn fresh_receiver() -> QueueReceiverState {
    QueueReceiverState { closed: false, armed: true }
}

/// The state after `disconnect`, where `open` is whether the transport still
/// reported the channel open (only asked of an open sender).
pub open spec fn disconnect_next(s: QueueSenderState, open: bool) -> QueueSenderState {
    if !s.open() {
        s
    } else if open {
        QueueSenderState { disconnected: true, ..s }
    } else {
        QueueSenderState { closed: true, ..s }
    }
}

/// What `disconnect` returns, with `open` as in [`disconnect_next`].
pub open spec fn disconnect_result(s: QueueSenderState, open: bool) -> Result<(), DisconnectError> {
    if s.disconnected {
        Err(DisconnectError::Disconnected)
    } else if s.closed || !open {
        Err(DisconnectError::Closed)
    } else {
        Ok(())
    }
}

/// The state after a sender's `close`, with `open` as in [`disconnect_next`].
pub open spec fn close_next(s: QueueSenderState, open: bool) -> QueueSenderState {
    if !s.open() {
        s
    } else {
        QueueSenderState { closed: true, ..s }
    }
}

/// What a sender's `close` returns, with `open` as in [`disconnect_next`].
pub open spec fn close_result(s: QueueSenderState, open: bool) -> Result<(), CloseError> {
    if s.disconnected {
        Err(CloseError::Disconnected)
    } else if s.closed || !open {
        Err(CloseError::Closed)
    } else {
        Ok(())
    }
}

/// The state after a receive attempt that met `p` (only asked while the
/// capability is held).
pub open spec fn recv_next<D>(s: QueueReceiverState, p: Pull<D>) -> QueueReceiverState {
    if s.armed && p is Ended {
        QueueReceiverState { closed: true, armed: false }
    } else {
        s
    }
}

/// What a receive attempt that met `p` returns: the value pulled, if any,
/// while the capability is held.
pub open spec fn recv_result<D>(s: QueueReceiverState, p: Pull<D>) -> Result<D, ReceiveError> {
    if s.armed {
        match p {
            Pull::Value(v) => Ok(v),
            Pull::Empty => Err(ReceiveError::Empty),
            Pull::Ended => Err(ReceiveError::Closed),
        }
    } else {
        Err(ReceiveError::Closed)
    }
}

/// The state after a receiver's `close`.
pub open spec fn receiver_close_next(s: QueueReceiverState) -> QueueReceiverState {
    QueueReceiverState { closed: true, armed: false }
}

/// What a receiver's `close` returns.
pub open spec fn receiver_close_result(s: QueueReceiverState) -> Result<(), CloseError> {
    if s.closed {
        Err(CloseError::Closed)
    } else {
        Ok(())
    }
}

/// What polling the receiver as a stream returns after meeting `p`: the
/// value pulled, `None` (pending) while the queue is drained and the channel
/// open, `Some(None)` once the stream has ended.
pub open spec fn stream_result<D>(s: QueueReceiverState, p: Pull<D>) -> Option<Option<D>> {
    if s.armed {
        match p {
            Pull::Value(v) => Some(Some(v)),
            Pull::Empty => None,
            Pull::Ended => Some(None),
        }
    } else {
        Some(None)
    }
}

/// The state after a phase of the sink protocol that met `o` from the
/// transport: `None` pending, `Some(true)` done, `Some(false)` refused. A
/// refusal latches `closed` on an open sender.
pub open spec fn sink_next(s: QueueSenderState, o: Option<bool>) -> QueueSenderState {
    if o == Some(false) && s.open() {
        QueueSenderState { closed: true, ..s }
    } else {
        s
    }
}

/// What a phase of the sink protocol that met `o` returns: a refusal reports
/// `Disconnected` after this handle disconnected itself, `Closed` otherwise.
pub open spec fn sink_result(s: QueueSenderState, o: Option<bool>) -> Option<Result<(), SendError<()>>> {
    match o {
        None => None,
        Some(true) => Some(Ok(())),
        Some(false) => if s.disconnected {
            Some(Err(SendError::Disconnected(())))
        } else {
            Some(Err(SendError::Closed(())))
        },
    }
}

/// Once the stream has ended it stays ended: every later poll returns
/// `Some(None)` and changes nothing. A pending poll changes nothing.
pub proof fn lemma_stream_end_is_final<D>(t: QueueReceiverState, p: Pull<D>, later: Pull<D>)
    requires
        t.wf(),
    ensures
        stream_result(t, p) == Some::<Option<D>>(None) ==> {
            &&& recv_next(t, p).closed
            &&& stream_result(recv_next(t, p), later) == Some::<Option<D>>(None)
            &&& recv_next(recv_next(t, p), later) == recv_next(t, p)
        },
        stream_result(t, p) is None ==> recv_next(t, p) == t,
{
}

/// A refused sink phase reports the cause this handle already reached, or
/// `Closed`; afterwards the handle is closed or disconnected, so `send`
/// refuses at once.
pub proof fn lemma_sink_refusal_latches(s: QueueSenderState)
    requires
        s.wf(),
    ensures
        !sink_next(s, Some(false)).open(),
        sink_next(s, Some(false)).wf(),
        s.disconnected ==> sink_result(s, Some(false)) == Some(Err::<(), SendError<()>>(SendError::Disconnected(()))),
        !s.disconnected ==> sink_result(s, Some(false)) == Some(Err::<(), SendError<()>>(SendError::Closed(()))),
{
}

/// Every operation keeps a side's state well formed, whatever the transport
/// answers.
pub proof fn lemma_queue_steps_keep_wf<D>(s: QueueSenderState, open: bool, t: QueueReceiverState, p: Pull<D>)
    requires
        s.wf(),
        t.wf(),
    ensures
        disconnect_next(s, open).wf(),
        close_next(s, open).wf(),
        recv_next(t, p).wf(),
        receiver_close_next(t).wf(),
{
}

/// After a sender disconnected itself, every later `disconnect` and `close`
/// on that handle returns `Disconnected` and changes nothing.
pub proof fn lemma_disconnect_is_idempotent(s: QueueSenderState, open: bool, later: bool)
    requires
        s.wf(),
        disconnect_result(s, open) is Ok,
    ensures
        disconnect_next(s, open).disconnected,
        disconnect_result(disconnect_next(s, open), later) == Err::<(), DisconnectError>(DisconnectError::Disconnected),
        disconnect_next(disconnect_next(s, open), later) == disconnect_next(s, open),
        close_result(disconnect_next(s, open), later) == Err::<(), CloseError>(CloseError::Disconnected),
        close_next(disconnect_next(s, open), later) == disconnect_next(s, open),
{
}

/// A sender's `close` succeeds only on an open sender; afterwards every
/// `close` and `disconnect` on that handle returns `Closed` and changes
/// nothing.
pub proof fn lemma_sender_close_is_idempotent(s: QueueSenderState, open: bool, later: bool)
    requires
        s.wf(),
    ensures
        close_result(s, open) is Ok ==> s.open(),
        s.open() ==> close_next(s, open).closed,
        s.open() ==> close_result(close_next(s, open), later) == Err::<(), CloseError>(CloseError::Closed),
        s.open() ==> disconnect_result(close_next(s, open), later) == Err::<(), DisconnectError>(DisconnectError::Closed),
        close_next(close_next(s, open), later) == close_next(s, open),
{
}

/// A receiver's `close` succeeds exactly when it was not closed before; after
/// it every `close` and every receive attempt returns `Closed`.
pub proof fn lemma_receiver_close_is_idempotent<D>(t: QueueReceiverState, p: Pull<D>)
    requires
        t.wf(),
    ensures
        receiver_close_result(t) is Ok <==> !t.closed,
        receiver_close_result(receiver_close_next(t)) == Err::<(), CloseError>(CloseError::Closed),
        recv_result(receiver_close_next(t), p) == Err::<D, ReceiveError>(ReceiveError::Closed),
        recv_next(receiver_close_next(t), p) == receiver_close_next(t),
{
}

/// A receive attempt that pulls a value hands out exactly that value and
/// changes nothing.
pub proof fn lemma_recv_hands_over_pulled_value<D>(t: QueueReceiverState, v: D)
    requires
        t.wf(),
        t.armed,
    ensures
        recv_result(t, Pull::Value(v)) == Ok::<D, ReceiveError>(v),
        recv_next(t, Pull::Value(v)) == t,
        stream_result(t, Pull::Value(v)) == Some(Some(v)),
{
}

/// Once a receive attempt reports `Closed`, the receiver is closed for good:
/// every later attempt reports `Closed` too and changes nothing. A value or
/// `Empty` changes nothing.
pub proof fn lemma_recv_end_is_final<D>(t: QueueReceiverState, p: Pull<D>, later: Pull<D>)
    requires
        t.wf(),
    ensures
        recv_result(t, p) == Err::<D, ReceiveError>(ReceiveError::Closed) ==> {
            &&& recv_next(t, p).closed
            &&& recv_result(recv_next(t, p), later) == Err::<D, ReceiveError>(ReceiveError::Closed)
            &&& recv_next(recv_next(t, p), later) == recv_next(t, p)
        },
        recv_result(t, p) != Err::<D, ReceiveError>(ReceiveError::Closed) ==> recv_next(t, p) == t,
{
}

} // verus!
