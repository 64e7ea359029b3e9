//! A multi-producer channel with a bounded buffer, whose sides keep a record
//! of how they ended.
use vstd::prelude::*;

use futures_channel::mpsc;
use std::task::Context;

use crate::error::{CloseError, DisconnectError, ReceiveError, SendError};
use crate::queue::{
    close_next, close_result, disconnect_next, disconnect_result, fresh_receiver, fresh_sender,
    receiver_close_next, receiver_close_result, recv_next, recv_result, stream_result,
    Pull, QueueReceiverState, QueueSenderState,
};
use crate::transport::{bounded_poll_next, bounded_pull, bounded_push};

verus! {

/// What the transport answers to a send of an open sender.
pub enum Admission {
    /// The channel was open and took the value.
    Accepted,
    /// The buffer had no room for this sender; nothing changed.
    Full,
    /// The channel was closed.
    Refused,
}

/// The state after a send that met `a` (only asked of an open sender). A
/// full buffer changes nothing.
pub open spec fn send_next(s: QueueSenderState, a: Admission) -> QueueSenderState {
    if s.open() && a == Admission::Refused {
        QueueSenderState { closed: true, ..s }
    } else {
        s
    }
}

/// What a send of `data` that met `a` returns.
pub open spec fn send_result<D>(s: QueueSenderState, a: Admission, data: D) -> Result<(), SendError<D>> {
    if s.disconnected {
        Err(SendError::Disconnected(data))
    } else if s.closed {
        Err(SendError::Closed(data))
    } else {
        match a {
            Admission::Accepted => Ok(()),
            Admission::Full => Err(SendError::Full(data)),
            Admission::Refused => Err(SendError::Closed(data)),
        }
    }
}

/// A send that meets a full buffer returns `Full` with its value and changes
/// nothing, so a later send that the transport accepts succeeds.
pub proof fn lemma_full_is_transient<D>(s: QueueSenderState, x: D, y: D)
    requires
        s.wf(),
        s.open(),
    ensures
        send_result(s, Admission::Full, x) == Err::<(), SendError<D>>(SendError::Full(x)),
        send_next(s, Admission::Full) == s,
        send_result(send_next(s, Admission::Full), Admission::Accepted, y) == Ok::<(), SendError<D>>(()),
{
}

/// A send by a sender that disconnected itself returns `Disconnected` with its
/// value; one by a sender that saw the channel closed returns `Closed`. Either
/// way nothing changes.
pub proof fn lemma_send_after_end<D>(s: QueueSenderState, a: Admission, x: D)
    requires
        s.wf(),
        !s.open(),
    ensures
        s.disconnected ==> send_result(s, a, x) == Err::<(), SendError<D>>(SendError::Disconnected(x)),
        s.closed ==> send_result(s, a, x) == Err::<(), SendError<D>>(SendError::Closed(x)),
        send_next(s, a) == s,
{
}

/// After a successful `disconnect`, every send on that handle returns
/// `Disconnected`; after a successful `close`, `Closed`.
pub proof fn lemma_send_after_disconnect_or_close<D>(s: QueueSenderState, open: bool, a: Admission, x: D)
    requires
        s.wf(),
    ensures
        disconnect_result(s, open) is Ok ==> send_result(disconnect_next(s, open), a, x)
            == Err::<(), SendError<D>>(SendError::Disconnected(x)),
        close_result(s, open) is Ok ==> send_result(close_next(s, open), a, x)
            == Err::<(), SendError<D>>(SendError::Closed(x)),
{
}

/// A sending handle of a bounded channel. Clones share the channel; each
/// keeps its own flags.
#[verifier::reject_recursive_types(D)]
pub struct BoundedSender<D> {
    /// Whether the channel has been closed.
    pub closed: bool,
    /// Whether this handle disconnected itself from the channel.
    pub disconnected: bool,
    sender: mpsc::Sender<D>,
}

/// The receiving side of a bounded channel.
#[verifier::reject_recursive_types(D)]
pub struct BoundedReceiver<D> {
    /// Whether the channel has been closed.
    pub closed: bool,
    receiver: Option<mpsc::Receiver<D>>,
}

impl<D> BoundedSender<D> {
    /// The flags.
    pub closed spec fn state(&self) -> QueueSenderState {
        QueueSenderState { closed: self.closed, disconnected: self.disconnected }
    }

    pub(crate) fn new(sender: mpsc::Sender<D>) -> (r: BoundedSender<D>)
        ensures
            r.state() == fresh_sender(),
    {
        BoundedSender { closed: false, disconnected: false, sender }
    }

    /// Whether `closed` is set.
    pub fn is_closed(&self) -> (r: bool)
        ensures
            r == self.state().closed,
    {
        self.closed
    }

    /// Whether `disconnected` is set.
    pub fn is_disconnected(&self) -> (r: bool)
        ensures
            r == self.state().disconnected,
    {
        self.disconnected
    }

    /// Sends `data`: refused at once with `Disconnected` or `Closed` after this
    /// handle reached either; otherwise `Ok(())` when the transport takes it,
    /// `Full` (nothing latched) while the buffer has no room, or `Closed`
    /// (latched) when it reports the channel closed. Each error carries `data`
    /// back.
    pub fn send(&mut self, data: D) -> (r: Result<(), SendError<D>>)
        ensures
            old(self).state().wf() ==> final(self).state().wf(),
            old(self).state().disconnected ==> {
                &&& r == Err::<(), SendError<D>>(SendError::Disconnected(data))
                &&& final(self).state() == old(self).state()
            },
            old(self).state().wf() && old(self).state().closed ==> {
                &&& r == Err::<(), SendError<D>>(SendError::Closed(data))
                &&& final(self).state() == old(self).state()
            },
            r matches Err(SendError::Closed(_)) ==> final(self).state().closed,
            r matches Err(SendError::Full(_)) ==> final(self).state() == old(self).state(),
            exists|a: Admission|
                send_next(old(self).state(), a) == final(self).state()
                && #[trigger] send_result(old(self).state(), a, data) == r,
    {
        let ghost d = data;
        if self.disconnected {
            let r = Err(SendError::Disconnected(data));
            assert(send_result(old(self).state(), Admission::Accepted, d) == r);
            r
        } else if self.closed {
            let r = Err(SendError::Closed(data));
            assert(send_result(old(self).state(), Admission::Accepted, d) == r);
            r
        } else {
            let pushed = if self.sender.is_closed() {
                Err(SendError::Closed(data))
            } else {
                bounded_push(&mut self.sender, data)
            };
            let ghost answer = pushed;
            let r = self.settle_push(pushed);
            proof {
                if answer is Ok {
                    assert(send_result(old(self).state(), Admission::Accepted, d) == r);
                } else if answer matches Err(SendError::Full(_)) {
                    assert(send_result(old(self).state(), Admission::Full, d) == r);
                } else {
                    assert(send_result(old(self).state(), Admission::Refused, d) == r);
                }
            }
            r
        }
    }

    /// Records what the transport answered to a send by an open handle: `Ok`
    /// and `Full` change nothing; `Closed` latches `closed`. Errors hand the
    /// value back.
    fn settle_push(&mut self, pushed: Result<(), SendError<D>>) -> (r: Result<(), SendError<D>>)
        requires
            old(self).state().open(),
            !(pushed matches Err(SendError::Disconnected(_))),
        ensures
            pushed is Ok ==> r == Ok::<(), SendError<D>>(()) && final(self).state() == old(self).state(),
            pushed matches Err(SendError::Full(v)) ==> r == Err::<(), SendError<D>>(SendError::Full(v))
                && final(self).state() == old(self).state(),
            pushed matches Err(SendError::Closed(v)) ==> r == Err::<(), SendError<D>>(SendError::Closed(v))
                && final(self).state() == (QueueSenderState { closed: true, ..old(self).state() }),
    {
        match pushed {
            Ok(()) => Ok(()),
            Err(SendError::Full(v)) => Err(SendError::Full(v)),
            Err(err) => {
                self.closed = true;
                Err(SendError::Closed(err.into_inner()))
            },
        }
    }

    /// Detaches this handle from the channel: `Ok(())` the first time, while
    /// the channel is open; afterwards the cause already reached.
    pub fn disconnect(&mut self) -> (r: Result<(), DisconnectError>)
        ensures
            old(self).state().wf() ==> final(self).state().wf(),
            exists|open: bool|
                disconnect_next(old(self).state(), open) == final(self).state()
                && #[trigger] disconnect_result(old(self).state(), open) == r,
    {
        if self.disconnected {
            assert(disconnect_result(old(self).state(), true) == Err::<(), DisconnectError>(DisconnectError::Disconnected));
            Err(DisconnectError::Disconnected)
        } else if self.closed {
            assert(disconnect_result(old(self).state(), true) == Err::<(), DisconnectError>(DisconnectError::Closed));
            Err(DisconnectError::Closed)
        } else {
            let open = !self.sender.is_closed();
            if open {
                self.sender.disconnect();
            }
            let r = self.settle_disconnect(open);
            assert(disconnect_result(old(self).state(), open) == r);
            r
        }
    }

    /// Records a disconnect of an open handle: `open` is whether the
    /// transport still reported the channel open (the handle has then let go
    /// of it).
    fn settle_disconnect(&mut self, open: bool) -> (r: Result<(), DisconnectError>)
        requires
            old(self).state().open(),
        ensures
            final(self).state() == disconnect_next(old(self).state(), open),
            r == disconnect_result(old(self).state(), open),
    {
        if open {
            self.disconnected = true;
            Ok(())
        } else {
            self.closed = true;
            Err(DisconnectError::Closed)
        }
    }

    /// Closes the whole channel, for every handle and the receiver: `Ok(())`
    /// the first time, while the channel is open; afterwards the cause
    /// already reached.
    pub fn close(&mut self) -> (r: Result<(), CloseError>)
        ensures
            old(self).state().wf() ==> final(self).state().wf(),
            exists|open: bool|
                close_next(old(self).state(), open) == final(self).state()
                && #[trigger] close_result(old(self).state(), open) == r,
    {
        if self.disconnected {
            assert(close_result(old(self).state(), true) == Err::<(), CloseError>(CloseError::Disconnected));
            Err(CloseError::Disconnected)
        } else if self.closed {
            assert(close_result(old(self).state(), true) == Err::<(), CloseError>(CloseError::Closed));
            Err(CloseError::Closed)
        } else {
            let open = !self.sender.is_closed();
            if open {
                self.sender.close_channel();
            }
            let r = self.settle_close(open);
            assert(close_result(old(self).state(), open) == r);
            r
        }
    }

    /// Records a close by an open handle: `open` is whether the transport
    /// still reported the channel open (it has then been closed).
    fn settle_close(&mut self, open: bool) -> (r: Result<(), CloseError>)
        requires
            old(self).state().open(),
        ensures
            final(self).state() == close_next(old(self).state(), open),
            r == close_result(old(self).state(), open),
    {
        self.closed = true;
        if open {
            Ok(())
        } else {
            Err(CloseError::Closed)
        }
    }
}

impl<D> Clone for BoundedSender<D> {
    /// Another handle on the same channel, with this one's flags.
    fn clone(&self) -> (r: BoundedSender<D>)
        ensures
            r.state() == self.state(),
    {
        BoundedSender { closed: self.closed, disconnected: self.disconnected, sender: self.sender.clone() }
    }
}

impl<D> BoundedReceiver<D> {
    /// The flag, and whether the capability to receive is still held.
    pub closed spec fn state(&self) -> QueueReceiverState {
        QueueReceiverState { closed: self.closed, armed: self.receiver is Some }
    }

    pub(crate) fn new(receiver: mpsc::Receiver<D>) -> (r: BoundedReceiver<D>)
        ensures
            r.state() == fresh_receiver(),
    {
        BoundedReceiver { closed: false, receiver: Some(receiver) }
    }

    /// Whether `closed` is set.
    pub fn is_closed(&self) -> (r: bool)
        ensures
            r == self.state().closed,
    {
        self.closed
    }

    /// Takes the next queued value: `Ok` with it, `Empty` while the queue is
    /// drained and the channel open, `Closed` once nothing more can come (then
    /// latched).
    pub fn try_recv(&mut self) -> (r: Result<D, ReceiveError>)
        ensures
            old(self).state().wf() ==> final(self).state().wf(),
            exists|p: Pull<D>|
                recv_next(old(self).state(), p) == final(self).state()
                && #[trigger] recv_result(old(self).state(), p) == r,
    {
        let p = match &mut self.receiver {
            Some(receiver) => bounded_pull(receiver),
            None => Pull::Ended,
        };
        let ghost seen = p;
        let r = self.take_pull(p);
        assert(recv_result(old(self).state(), seen) == r);
        r
    }

    /// Records what the transport answered to a receive attempt: a value is
    /// handed out, `Empty` changes nothing, the end of the channel gives up
    /// the capability and latches `closed`. Without the capability the answer
    /// is `Closed`.
    fn take_pull(&mut self, p: Pull<D>) -> (r: Result<D, ReceiveError>)
        ensures
            final(self).state() == recv_next(old(self).state(), p),
            r == recv_result(old(self).state(), p),
    {
        if self.receiver.is_none() {
            return Err(ReceiveError::Closed);
        }
        match p {
            Pull::Value(data) => Ok(data),
            Pull::Empty => Err(ReceiveError::Empty),
            Pull::Ended => {
                self.receiver = None;
                self.closed = true;
                Err(ReceiveError::Closed)
            },
        }
    }

    /// Polls for the next value as a stream, registering the task of `cx` to
    /// be woken when one may have come: `Some(Some(_))` a value, `None` while
    /// pending, `Some(None)` once the stream has ended (then latched, as by
    /// `try_recv`).
    pub fn poll_next(&mut self, cx: &mut Context<'_>) -> (r: Option<Option<D>>)
        ensures
            old(self).state().wf() ==> final(self).state().wf(),
            exists|p: Pull<D>|
                recv_next(old(self).state(), p) == final(self).state()
                && #[trigger] stream_result(old(self).state(), p) == r,
    {
        let p = match &mut self.receiver {
            Some(receiver) => bounded_poll_next(receiver, cx),
            None => Pull::Ended,
        };
        let ghost seen = p;
        let r = self.take_stream(p);
        assert(stream_result(old(self).state(), seen) == r);
        r
    }

    /// Records what the transport answered to a poll of the stream: a value
    /// is handed out, a drained open queue is pending, the end of the channel
    /// gives up the capability and latches `closed`. Without the capability
    /// the stream has ended.
    fn take_stream(&mut self, p: Pull<D>) -> (r: Option<Option<D>>)
        ensures
            final(self).state() == recv_next(old(self).state(), p),
            r == stream_result(old(self).state(), p),
    {
        if self.receiver.is_none() {
            return Some(None);
        }
        match p {
            Pull::Value(data) => Some(Some(data)),
            Pull::Empty => None,
            Pull::Ended => {
                self.receiver = None;
                self.closed = true;
                Some(None)
            },
        }
    }

    /// Whether the stream has ended.
    pub fn is_terminated(&self) -> (r: bool)
        ensures
            r == self.state().closed,
    {
        self.closed
    }

    /// Closes the channel, so that every send fails, and gives up the
    /// capability to receive: `Ok(())` the first time, `Closed` afterwards.
    pub fn close(&mut self) -> (r: Result<(), CloseError>)
        ensures
            old(self).state().wf() ==> final(self).state().wf(),
            final(self).state() == receiver_close_next(old(self).state()),
            r == receiver_close_result(old(self).state()),
    {
        if self.closed {
            self.receiver = None;
            return Err(CloseError::Closed);
        }
        if let Some(receiver) = &mut self.receiver {
            receiver.close();
        }
        self.receiver = None;
        self.closed = true;
        Ok(())
    }
}

} // verus!
