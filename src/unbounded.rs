//! A multi-producer channel without a bound, whose sides keep a record of
//! how they ended.
use vstd::prelude::*;

use futures_channel::mpsc;
use std::task::Context;

use crate::error::{CloseError, DisconnectError, ReceiveError, SendError};
use crate::queue::{
    close_next, close_result, disconnect_next, disconnect_result, fresh_receiver, fresh_sender,
    receiver_close_next, receiver_close_result, recv_next, recv_result, sink_next,
    sink_result, stream_result, Pull, QueueReceiverState, QueueSenderState,
};
use crate::transport::{
    unbounded_poll_close, unbounded_poll_flush, unbounded_poll_next, unbounded_poll_ready,
    unbounded_pull, unbounded_push,
};

verus! {

/// The state after a send, where `accepted` is whether the transport reported
/// the channel open and took the value (only asked of an open sender).
pub open spec fn send_next(s: QueueSenderState, accepted: bool) -> QueueSenderState {
    if !s.open() || accepted {
        s
    } else {
        QueueSenderState { closed: true, ..s }
    }
}

/// What a send of `data` returns, with `accepted` as in [`send_next`].
pub open spec fn send_result<D>(s: QueueSenderState, accepted: bool, data: D) -> Result<(), SendError<D>> {
    if s.disconnected {
        Err(SendError::Disconnected(data))
    } else if s.closed || !accepted {
        Err(SendError::Closed(data))
    } else {
        Ok(())
    }
}

/// A send by a sender that disconnected itself returns `Disconnected` with its
/// value; one by a sender that saw the channel closed returns `Closed`. Either
/// way nothing changes.
pub proof fn lemma_send_after_end<D>(s: QueueSenderState, accepted: bool, x: D)
    requires
        s.wf(),
        !s.open(),
    ensures
        s.disconnected ==> send_result(s, accepted, x) == Err::<(), SendError<D>>(SendError::Disconnected(x)),
        s.closed ==> send_result(s, accepted, x) == Err::<(), SendError<D>>(SendError::Closed(x)),
        send_next(s, accepted) == s,
{
}

/// After a successful `disconnect`, every send on that handle returns
/// `Disconnected`; after a successful `close`, `Closed`.
pub proof fn lemma_send_after_disconnect_or_close<D>(s: QueueSenderState, open: bool, accepted: bool, x: D)
    requires
        s.wf(),
    ensures
        disconnect_result(s, open) is Ok ==> send_result(disconnect_next(s, open), accepted, x)
            == Err::<(), SendError<D>>(SendError::Disconnected(x)),
        close_result(s, open) is Ok ==> send_result(close_next(s, open), accepted, x)
            == Err::<(), SendError<D>>(SendError::Closed(x)),
{
}

/// A send that finds the channel closed latches `closed`: it and every later
/// send return `Closed`, each with its own value.
pub proof fn lemma_refused_send_latches<D>(s: QueueSenderState, x: D, later: bool, y: D)
    requires
        s.wf(),
        s.open(),
    ensures
        send_result(s, false, x) == Err::<(), SendError<D>>(SendError::Closed(x)),
        send_next(s, false).closed,
        send_result(send_next(s, false), later, y) == Err::<(), SendError<D>>(SendError::Closed(y)),
        send_next(send_next(s, false), later).wf(),
{
}

/// A sending handle of an unbounded channel. Clones share the channel; each
/// keeps its own flags.
#[verifier::reject_recursive_types(D)]
pub struct UnboundedSender<D> {
    /// Whether the channel has been closed.
    pub closed: bool,
    /// Whether this handle disconnected itself from the channel.
    pub disconnected: bool,
    sender: mpsc::UnboundedSender<D>,
}

/// The receiving side of an unbounded channel.
#[verifier::reject_recursive_types(D)]
pub struct UnboundedReceiver<D> {
    /// Whether the channel has been closed.
    pub closed: bool,
    receiver: Option<mpsc::UnboundedReceiver<D>>,
}

impl<D> UnboundedSender<D> {
    /// The flags.
    pub closed spec fn state(&self) -> QueueSenderState {
        QueueSenderState { closed: self.closed, disconnected: self.disconnected }
    }

    pub(crate) fn new(sender: mpsc::UnboundedSender<D>) -> (r: UnboundedSender<D>)
        ensures
            r.state() == fresh_sender(),
    {
        UnboundedSender { closed: false, disconnected: false, sender }
    }

    /// Whether `closed` is set.
    pub fn is_closed(&self) -> (r: bool)
        ensures
            r == self.state().closed,
    {
        self.closed
    }

    /// Whether `disconnected` is set.
    pub fn is_disconnected(&self) -> (r: bool)
        ensures
            r == self.state().disconnected,
    {
        self.disconnected
    }

    /// Sends `data`: refused at once with `Disconnected` or `Closed` after this
    /// handle reached either; otherwise `Ok(())` when the transport takes it,
    /// or `Closed` (latched) when it reports the channel closed. Each error
    /// carries `data` back.
    pub fn send(&mut self, data: D) -> (r: Result<(), SendError<D>>)
        ensures
            old(self).state().wf() ==> final(self).state().wf(),
            old(self).state().disconnected ==> {
                &&& r == Err::<(), SendError<D>>(SendError::Disconnected(data))
                &&& final(self).state() == old(self).state()
            },
            old(self).state().wf() && old(self).state().closed ==> {
                &&& r == Err::<(), SendError<D>>(SendError::Closed(data))
                &&& final(self).state() == old(self).state()
            },
            r matches Err(SendError::Closed(_)) ==> final(self).state().closed,
            exists|accepted: bool|
                send_next(old(self).state(), accepted) == final(self).state()
                && #[trigger] send_result(old(self).state(), accepted, data) == r,
    {
        let ghost d = data;
        if self.disconnected {
            let r = Err(SendError::Disconnected(data));
            assert(send_result(old(self).state(), true, d) == r);
            r
        } else if self.closed {
            let r = Err(SendError::Closed(data));
            assert(send_result(old(self).state(), true, d) == r);
            r
        } else {
            let pushed = if self.sender.is_closed() {
                Err(data)
            } else {
                unbounded_push(&self.sender, data)
            };
            let ghost answer = pushed;
            let r = self.settle_push(pushed);
            assert(send_result(old(self).state(), answer is Ok, d) == r);
            r
        }
    }

    /// Records what the transport answered to a send by an open handle: `Ok`
    /// changes nothing; `Err` hands the value back as `Closed` and latches
    /// `closed`.
    fn settle_push(&mut self, pushed: Result<(), D>) -> (r: Result<(), SendError<D>>)
        requires
            old(self).state().open(),
        ensures
            pushed is Ok ==> r == Ok::<(), SendError<D>>(()) && final(self).state() == old(self).state(),
            pushed matches Err(v) ==> r == Err::<(), SendError<D>>(SendError::Closed(v))
                && final(self).state() == (QueueSenderState { closed: true, ..old(self).state() }),
    {
        match pushed {
            Ok(()) => Ok(()),
            Err(v) => {
                self.closed = true;
                Err(SendError::Closed(v))
            },
        }
    }

    /// Detaches this handle from the channel: `Ok(())` the first time, while
    /// the channel is open; afterwards the cause already reached.
    pub fn disconnect(&mut self) -> (r: Result<(), DisconnectError>)
        ensures
            old(self).state().wf() ==> final(self).state().wf(),
            exists|open: bool|
                disconnect_next(old(self).state(), open) == final(self).state()
                && #[trigger] disconnect_result(old(self).state(), open) == r,
    {
        if self.disconnected {
            assert(disconnect_result(old(self).state(), true) == Err::<(), DisconnectError>(DisconnectError::Disconnected));
            Err(DisconnectError::Disconnected)
        } else if self.closed {
            assert(disconnect_result(old(self).state(), true) == Err::<(), DisconnectError>(DisconnectError::Closed));
            Err(DisconnectError::Closed)
        } else {
            let open = !self.sender.is_closed();
            if open {
                self.sender.disconnect();
            }
            let r = self.settle_disconnect(open);
            assert(disconnect_result(old(self).state(), open) == r);
            r
        }
    }

    /// Records a disconnect of an open handle: `open` is whether the
    /// transport still reported the channel open (the handle has then let go
    /// of it).
    fn settle_disconnect(&mut self, open: bool) -> (r: Result<(), DisconnectError>)
        requires
            old(self).state().open(),
        ensures
            final(self).state() == disconnect_next(old(self).state(), open),
            r == disconnect_result(old(self).state(), open),
    {
        if open {
            self.disconnected = true;
            Ok(())
        } else {
            self.closed = true;
            Err(DisconnectError::Closed)
        }
    }

    /// Closes the whole channel, for every handle and the receiver: `Ok(())`
    /// the first time, while the channel is open; afterwards the cause
    /// already reached.
    pub fn close(&mut self) -> (r: Result<(), CloseError>)
        ensures
            old(self).state().wf() ==> final(self).state().wf(),
            exists|open: bool|
                close_next(old(self).state(), open) == final(self).state()
                && #[trigger] close_result(old(self).state(), open) == r,
    {
        if self.disconnected {
            assert(close_result(old(self).state(), true) == Err::<(), CloseError>(CloseError::Disconnected));
            Err(CloseError::Disconnected)
        } else if self.closed {
            assert(close_result(old(self).state(), true) == Err::<(), CloseError>(CloseError::Closed));
            Err(CloseError::Closed)
        } else {
            let open = !self.sender.is_closed();
            if open {
                self.sender.close_channel();
            }
            let r = self.settle_close(open);
            assert(close_result(old(self).state(), open) == r);
            r
        }
    }

    /// Records a close by an open handle: `open` is whether the transport
    /// still reported the channel open (it has then been closed).
    fn settle_close(&mut self, open: bool) -> (r: Result<(), CloseError>)
        requires
            old(self).state().open(),
        ensures
            final(self).state() == close_next(old(self).state(), open),
            r == close_result(old(self).state(), open),
    {
        self.closed = true;
        if open {
            Ok(())
        } else {
            Err(CloseError::Closed)
        }
    }
}

impl<D> UnboundedSender<D> {
    /// Records a phase of the sink protocol that met `o` from the transport.
    fn sink_phase(&mut self, o: Option<bool>) -> (r: Option<Result<(), SendError<()>>>)
        ensures
            final(self).state() == sink_next(old(self).state(), o),
            r == sink_result(old(self).state(), o),
    {
        match o {
            None => None,
            Some(true) => Some(Ok(())),
            Some(false) => if self.disconnected {
                Some(Err(SendError::Disconnected(())))
            } else if self.closed {
                Some(Err(SendError::Closed(())))
            } else {
                self.closed = true;
                Some(Err(SendError::Closed(())))
            },
        }
    }

    /// The readiness phase of the sink protocol: `None` while pending, `Ok`
    /// once a value can be submitted, or the cause of a refusal (see
    /// [`sink_result`]).
    pub fn poll_ready(&mut self, cx: &mut Context<'_>) -> (r: Option<Result<(), SendError<()>>>)
        ensures
            r is Some,
            old(self).state().wf() ==> final(self).state().wf(),
            exists|o: Option<bool>|
                sink_next(old(self).state(), o) == final(self).state()
                && #[trigger] sink_result(old(self).state(), o) == r,
    {
        let o = unbounded_poll_ready(&mut self.sender, cx);
        let r = self.sink_phase(o);
        assert(sink_result(old(self).state(), o) == r);
        r
    }

    /// The submission phase of the sink protocol: `msg` is queued, or the
    /// cause of a refusal is returned (without the message).
    pub fn start_send(&mut self, msg: D) -> (r: Result<(), SendError<()>>)
        ensures
            old(self).state().wf() ==> final(self).state().wf(),
            exists|accepted: bool|
                sink_next(old(self).state(), Some(accepted)) == final(self).state()
                && #[trigger] sink_result(old(self).state(), Some(accepted)) == Some(r),
    {
        let accepted = unbounded_push(&self.sender, msg).is_ok();
        let phase = self.sink_phase(Some(accepted));
        let r = match phase {
            Some(r) => r,
            None => Ok(()),
        };
        assert(sink_result(old(self).state(), Some(accepted)) == Some(r));
        r
    }

    /// The flush phase of the sink protocol: nothing is buffered on this side,
    /// so it is done at once and changes nothing.
    pub fn poll_flush(&mut self, cx: &mut Context<'_>) -> (r: Option<Result<(), SendError<()>>>)
        ensures
            r == Some(Ok::<(), SendError<()>>(())),
            final(self).state() == old(self).state(),
    {
        let o = unbounded_poll_flush(&mut self.sender, cx);
        self.sink_phase(o)
    }

    /// The close phase of the sink protocol: the handle lets go of the
    /// channel at once; its flags stay as they were, and a later `send` finds
    /// the transport closed.
    pub fn poll_close(&mut self, cx: &mut Context<'_>) -> (r: Option<Result<(), SendError<()>>>)
        ensures
            r == Some(Ok::<(), SendError<()>>(())),
            final(self).state() == old(self).state(),
    {
        let o = unbounded_poll_close(&mut self.sender, cx);
        self.sink_phase(o)
    }
}

impl<D> Clone for UnboundedSender<D> {
    /// Another handle on the same channel, with this one's flags.
    fn clone(&self) -> (r: UnboundedSender<D>)
        ensures
            r.state() == self.state(),
    {
        UnboundedSender { closed: self.closed, disconnected: self.disconnected, sender: self.sender.clone() }
    }
}

impl<D> UnboundedReceiver<D> {
    /// The flag, and whether the capability to receive is still held.
    pub closed spec fn state(&self) -> QueueReceiverState {
        QueueReceiverState { closed: self.closed, armed: self.receiver is Some }
    }

    pub(crate) fn new(receiver: mpsc::UnboundedReceiver<D>) -> (r: UnboundedReceiver<D>)
        ensures
            r.state() == fresh_receiver(),
    {
        UnboundedReceiver { closed: false, receiver: Some(receiver) }
    }

    /// Whether `closed` is set.
    pub fn is_closed(&self) -> (r: bool)
        ensures
            r == self.state().closed,
    {
        self.closed
    }

    /// Takes the next queued value: `Ok` with it, `Empty` while the queue is
    /// drained and the channel open, `Closed` once nothing more can come (then
    /// latched).
    pub fn try_recv(&mut self) -> (r: Result<D, ReceiveError>)
        ensures
            old(self).state().wf() ==> final(self).state().wf(),
            exists|p: Pull<D>|
                recv_next(old(self).state(), p) == final(self).state()
                && #[trigger] recv_result(old(self).state(), p) == r,
    {
        let p = match &mut self.receiver {
            Some(receiver) => unbounded_pull(receiver),
            None => Pull::Ended,
        };
        let ghost seen = p;
        let r = self.take_pull(p);
        assert(recv_result(old(self).state(), seen) == r);
        r
    }

    /// Records what the transport answered to a receive attempt: a value is
    /// handed out, `Empty` changes nothing, the end of the channel gives up
    /// the capability and latches `closed`. Without the capability the answer
    /// is `Closed`.
    fn take_pull(&mut self, p: Pull<D>) -> (r: Result<D, ReceiveError>)
        ensures
            final(self).state() == recv_next(old(self).state(), p),
            r == recv_result(old(self).state(), p),
    {
        if self.receiver.is_none() {
            return Err(ReceiveError::Closed);
        }
        match p {
            Pull::Value(data) => Ok(data),
            Pull::Empty => Err(ReceiveError::Empty),
            Pull::Ended => {
                self.receiver = None;
                self.closed = true;
                Err(ReceiveError::Closed)
            },
        }
    }

    /// Polls for the next value as a stream, registering the task of `cx` to
    /// be woken when one may have come: `Some(Some(_))` a value, `None` while
    /// pending, `Some(None)` once the stream has ended (then latched, as by
    /// `try_recv`).
    pub fn poll_next(&mut self, cx: &mut Context<'_>) -> (r: Option<Option<D>>)
        ensures
            old(self).state().wf() ==> final(self).state().wf(),
            exists|p: Pull<D>|
                recv_next(old(self).state(), p) == final(self).state()
                && #[trigger] stream_result(old(self).state(), p) == r,
    {
        let p = match &mut self.receiver {
            Some(receiver) => unbounded_poll_next(receiver, cx),
            None => Pull::Ended,
        };
        let ghost seen = p;
        let r = self.take_stream(p);
        assert(stream_result(old(self).state(), seen) == r);
        r
    }

    /// Records what the transport answered to a poll of the stream: a value
    /// is handed out, a drained open queue is pending, the end of the channel
    /// gives up the capability and latches `closed`. Without the capability
    /// the stream has ended.
    fn take_stream(&mut self, p: Pull<D>) -> (r: Option<Option<D>>)
        ensures
            final(self).state() == recv_next(old(self).state(), p),
            r == stream_result(old(self).state(), p),
    {
        if self.receiver.is_none() {
            return Some(None);
        }
        match p {
            Pull::Value(data) => Some(Some(data)),
            Pull::Empty => None,
            Pull::Ended => {
                self.receiver = None;
                self.closed = true;
                Some(None)
            },
        }
    }

    /// Whether the stream has ended.
    pub fn is_terminated(&self) -> (r: bool)
        ensures
            r == self.state().closed,
    {
        self.closed
    }

    /// Closes the channel, so that every send fails, and gives up the
    /// capability to receive: `Ok(())` the first time, `Closed` afterwards.
    pub fn close(&mut self) -> (r: Result<(), CloseError>)
        ensures
            old(self).state().wf() ==> final(self).state().wf(),
            final(self).state() == receiver_close_next(old(self).state()),
            r == receiver_close_result(old(self).state()),
    {
        if self.closed {
            self.receiver = None;
            return Err(CloseError::Closed);
        }
        if let Some(receiver) = &mut self.receiver {
            receiver.close();
        }
        self.receiver = None;
        self.closed = true;
        Ok(())
    }
}

} // verus!
