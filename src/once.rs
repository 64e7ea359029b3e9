//! A single-value channel whose two sides keep a record of how they ended.
use vstd::prelude::*;

use futures_channel::oneshot::{Receiver, Sender};
use std::task::Context;

use crate::error::{CloseError, ReceiveError, SendError};
use crate::transport::oneshot_poll;

verus! {

/// The state of a [`OnceSender`]: its two flags, and whether it still holds
/// the capability to send.
pub struct OnceSenderState {
    pub sent: bool,
    pub cancelled: bool,
    pub armed: bool,
}

/// The state of a [`OnceReceiver`]: its three flags, and whether it still
/// holds the capability to receive.
pub struct OnceReceiverState {
    pub received: bool,
    pub closed: bool,
    pub cancelled: bool,
    pub armed: bool,
}

/// What the transport answers to a receive attempt.
pub enum Arrival<D> {
    /// The sent value is there.
    Value(D),
    /// Nothing has been sent yet.
    Nothing,
    /// The sender is gone without sending.
    Gone,
}

impl OnceSenderState {
    /// The capability is held exactly while no terminal flag is set, and the
    /// two terminal flags exclude each other.
    pub open spec fn wf(self) -> bool {
        &&& self.armed == !(self.sent || self.cancelled)
        &&& !(self.sent && self.cancelled)
    }
}

impl OnceReceiverState {
    /// The capability is held exactly while no flag is set; a value received
    /// and a sender gone exclude each other.
    pub open spec fn wf(self) -> bool {
        &&& self.armed == !(self.received || self.closed || self.cancelled)
        &&& !(self.received && self.cancelled)
    }
}

/// The state of a fresh sender.
pub open spec fn fresh_sender() -> OnceSenderState {
    OnceSenderState { sent: false, cancelled: false, armed: true }
}

/// The state of a fresh receiver.
pub open spec fn fresh_receiver() -> OnceReceiverState {
    OnceReceiverState { received: false, closed: false, cancelled: false, armed: true }
}

/// The state after a send, where `delivered` is whether the transport took
/// the value (only asked while the capability is held).
pub open spec fn send_next(s: OnceSenderState, delivered: bool) -> OnceSenderState {
    if s.armed {
        if delivered {
            OnceSenderState { sent: true, armed: false, ..s }
        } else {
            OnceSenderState { cancelled: true, armed: false, ..s }
        }
    } else {
        s
    }
}

/// What a send of `data` returns, with `delivered` as in [`send_next`].
pub open spec fn send_result<D>(s: OnceSenderState, delivered: bool, data: D) -> Result<(), SendError<D>> {
    if s.armed {
        if delivered {
            Ok(())
        } else {
            Err(SendError::Closed(data))
        }
    } else if s.sent {
        Err(SendError::Full(data))
    } else {
        Err(SendError::Closed(data))
    }
}

/// The state after a receive attempt that met `a` (only asked while the
/// capability is held).
pub open spec fn recv_next<D>(s: OnceReceiverState, a: Arrival<D>) -> OnceReceiverState {
    if s.armed {
        match a {
            Arrival::Value(_) => OnceReceiverState { received: true, armed: false, ..s },
            Arrival::Nothing => s,
            Arrival::Gone => OnceReceiverState { cancelled: true, armed: false, ..s },
        }
    } else {
        s
    }
}

/// What a receive attempt that met `a` returns: the value that arrived, if
/// any, while the capability is held.
pub open spec fn recv_result<D>(s: OnceReceiverState, a: Arrival<D>) -> Result<D, ReceiveError> {
    if s.armed {
        match a {
            Arrival::Value(v) => Ok(v),
            Arrival::Nothing => Err(ReceiveError::Empty),
            Arrival::Gone => Err(ReceiveError::Closed),
        }
    } else {
        Err(ReceiveError::Closed)
    }
}

/// The state after `close`. A receiver that was closed, or that saw the
/// sender gone, has already ended and stays as it is.
pub open spec fn close_next(s: OnceReceiverState) -> OnceReceiverState {
    if s.closed || s.cancelled {
        s
    } else {
        OnceReceiverState { closed: true, armed: false, ..s }
    }
}

/// What `close` returns: `Closed` once the receiver was closed or saw the
/// sender gone.
pub open spec fn close_result(s: OnceReceiverState) -> Result<(), CloseError> {
    if s.closed || s.cancelled {
        Err(CloseError::Closed)
    } else {
        Ok(())
    }
}

/// What polling the receiver returns after meeting `a`: `None` (pending)
/// while the capability is held and nothing has arrived, else the answer of a
/// receive attempt.
pub open spec fn poll_result<D>(s: OnceReceiverState, a: Arrival<D>) -> Option<Result<D, ReceiveError>> {
    if s.armed && a is Nothing {
        None
    } else {
        Some(recv_result(s, a))
    }
}

/// Polling leaves the receiver as it was while it is pending, so a wait that
/// is abandoned costs nothing; otherwise it acts as a receive attempt.
pub proof fn lemma_pending_poll_changes_nothing<D>(s: OnceReceiverState, a: Arrival<D>)
    requires
        s.wf(),
    ensures
        poll_result(s, a) is None ==> recv_next(s, a) == s,
        poll_result(s, a) matches Some(x) ==> x == recv_result(s, a),
{
}

/// How many of a run of sends from `s` succeed, the transport answering the
/// sends in turn with `outcomes`.
pub open spec fn send_successes(s: OnceSenderState, outcomes: Seq<bool>) -> nat
    decreases outcomes.len(),
{
    if outcomes.len() == 0 {
        0
    } else {
        let first: nat = if send_result(s, outcomes[0], ()) is Ok { 1 } else { 0 };
        first + send_successes(send_next(s, outcomes[0]), outcomes.drop_first())
    }
}

/// How many of a run of receive attempts from `s` hand out a value, the
/// transport answering them in turn with `arrivals`.
pub open spec fn recv_successes<D>(s: OnceReceiverState, arrivals: Seq<Arrival<D>>) -> nat
    decreases arrivals.len(),
{
    if arrivals.len() == 0 {
        0
    } else {
        let first: nat = if recv_result(s, arrivals[0]) is Ok { 1 } else { 0 };
        first + recv_successes(recv_next(s, arrivals[0]), arrivals.drop_first())
    }
}

/// Every operation keeps a side's state well formed, whatever the transport
/// answers.
pub proof fn lemma_once_steps_keep_wf<D>(s: OnceSenderState, delivered: bool, t: OnceReceiverState, a: Arrival<D>)
    requires
        s.wf(),
        t.wf(),
    ensures
        send_next(s, delivered).wf(),
        recv_next(t, a).wf(),
        close_next(t).wf(),
{
}

/// Whatever the transport answers, at most one send of a well-formed sender
/// ever succeeds, and none once the capability is gone.
pub proof fn lemma_send_succeeds_at_most_once(s: OnceSenderState, outcomes: Seq<bool>)
    requires
        s.wf(),
    ensures
        send_successes(s, outcomes) <= 1,
        !s.armed ==> send_successes(s, outcomes) == 0,
    decreases outcomes.len(),
{
    if outcomes.len() > 0 {
        lemma_send_succeeds_at_most_once(send_next(s, outcomes[0]), outcomes.drop_first());
    }
}

/// After a successful send, every later send is refused with `Full`, hands
/// its own value back, and leaves the state as it was.
pub proof fn lemma_send_after_success_is_full<D>(s: OnceSenderState, delivered: bool, x: D, later: bool, y: D)
    requires
        s.wf(),
        send_result(s, delivered, x) is Ok,
    ensures
        send_result(send_next(s, delivered), later, y) == Err::<(), SendError<D>>(SendError::Full(y)),
        send_next(send_next(s, delivered), later) == send_next(s, delivered),
{
}

/// A send that finds the receiver gone returns `Closed` with the value it was
/// given and sets `cancelled`; every later send returns `Closed` the same way.
pub proof fn lemma_send_to_gone_receiver<D>(s: OnceSenderState, x: D, later: bool, y: D)
    requires
        s.wf(),
        s.armed,
    ensures
        send_result(s, false, x) == Err::<(), SendError<D>>(SendError::Closed(x)),
        send_next(s, false).cancelled,
        !send_next(s, false).sent,
        send_result(send_next(s, false), later, y) == Err::<(), SendError<D>>(SendError::Closed(y)),
        send_next(send_next(s, false), later) == send_next(s, false),
{
}

/// Whatever the transport answers, a well-formed receiver hands out a value at
/// most once, and none once the capability is gone.
pub proof fn lemma_recv_succeeds_at_most_once<D>(s: OnceReceiverState, arrivals: Seq<Arrival<D>>)
    requires
        s.wf(),
    ensures
        recv_successes(s, arrivals) <= 1,
        !s.armed ==> recv_successes(s, arrivals) == 0,
    decreases arrivals.len(),
{
    if arrivals.len() > 0 {
        lemma_recv_succeeds_at_most_once(recv_next(s, arrivals[0]), arrivals.drop_first());
    }
}

/// After the value was received, every later receive attempt returns `Closed`
/// and changes nothing.
pub proof fn lemma_recv_after_success_is_closed<D>(s: OnceReceiverState, a: Arrival<D>, later: Arrival<D>)
    requires
        s.wf(),
        recv_result(s, a) is Ok,
    ensures
        recv_next(s, a).received,
        !recv_next(s, a).cancelled,
        recv_result(recv_next(s, a), later) == Err::<D, ReceiveError>(ReceiveError::Closed),
        recv_next(recv_next(s, a), later) == recv_next(s, a),
{
}

/// A receive attempt that meets the value hands out exactly that value, sets
/// `received` and gives up the capability.
pub proof fn lemma_recv_hands_over_arrived_value<D>(s: OnceReceiverState, v: D)
    requires
        s.wf(),
        s.armed,
    ensures
        recv_result(s, Arrival::Value(v)) == Ok::<D, ReceiveError>(v),
        recv_next(s, Arrival::Value(v)).received,
        !recv_next(s, Arrival::Value(v)).cancelled,
        !recv_next(s, Arrival::Value(v)).armed,
{
}

/// A receive attempt that finds the sender gone returns `Closed` and sets
/// `cancelled`; every later attempt returns `Closed` too.
pub proof fn lemma_recv_from_gone_sender<D>(s: OnceReceiverState, later: Arrival<D>)
    requires
        s.wf(),
        s.armed,
    ensures
        recv_result(s, Arrival::<D>::Gone) == Err::<D, ReceiveError>(ReceiveError::Closed),
        recv_next(s, Arrival::<D>::Gone).cancelled,
        !recv_next(s, Arrival::<D>::Gone).received,
        recv_result(recv_next(s, Arrival::<D>::Gone), later) == Err::<D, ReceiveError>(ReceiveError::Closed),
{
}

/// `close` succeeds exactly on a receiver neither closed before nor cancelled
/// by a sender gone, and every later `close` returns `Closed`; after it every
/// receive attempt returns `Closed`.
pub proof fn lemma_close_is_idempotent<D>(s: OnceReceiverState, a: Arrival<D>)
    requires
        s.wf(),
    ensures
        close_result(s) is Ok <==> !s.closed && !s.cancelled,
        close_result(s) is Ok ==> close_next(s).closed,
        close_result(s) is Err ==> close_next(s) == s,
        close_result(close_next(s)) == Err::<(), CloseError>(CloseError::Closed),
        close_next(close_next(s)) == close_next(s),
        recv_result(close_next(s), a) == Err::<D, ReceiveError>(ReceiveError::Closed),
        recv_next(close_next(s), a) == close_next(s),
{
}

/// The sending side of a once-channel.
#[verifier::reject_recursive_types(D)]
pub struct OnceSender<D> {
    /// Whether a value has been sent over the channel.
    pub sent: bool,
    /// Whether the receiving side was gone when a send was tried.
    pub cancelled: bool,
    sender: Option<Sender<D>>,
}

/// The receiving side of a once-channel.
#[verifier::reject_recursive_types(D)]
pub struct OnceReceiver<D> {
    /// Whether the value has been received.
    pub received: bool,
    /// Whether this side closed the channel.
    pub closed: bool,
    /// Whether the sender went away without sending.
    pub cancelled: bool,
    receiver: Option<Receiver<D>>,
}

impl<D> OnceSender<D> {
    /// Whether this side still holds the capability to send.
    pub closed spec fn armed(&self) -> bool {
        self.sender is Some
    }

    /// The flags together with [`OnceSender::armed`].
    pub closed spec fn state(&self) -> OnceSenderState {
        OnceSenderState { sent: self.sent, cancelled: self.cancelled, armed: self.armed() }
    }

    pub(crate) fn new(sender: Sender<D>) -> (r: OnceSender<D>)
        ensures
            r.state() == fresh_sender(),
    {
        OnceSender { sent: false, cancelled: false, sender: Some(sender) }
    }

    /// Whether `sent` is set.
    pub fn is_sent(&self) -> (r: bool)
        ensures
            r == self.state().sent,
    {
        self.sent
    }

    /// Whether `cancelled` is set.
    pub fn is_cancelled(&self) -> (r: bool)
        ensures
            r == self.state().cancelled,
    {
        self.cancelled
    }

    /// Sends `data`. The first send hands it to the transport, which either
    /// takes it (`Ok(())`) or reports the receiver gone (`Closed`). Every later
    /// send is refused with `Full` after a delivery, `Closed` otherwise; each
    /// error carries `data` back.
    pub fn send(&mut self, data: D) -> (r: Result<(), SendError<D>>)
        ensures
            old(self).state().wf() ==> final(self).state().wf(),
            old(self).state().wf() && r is Ok ==> {
                &&& !old(self).state().sent && !old(self).state().cancelled
                &&& final(self).state().sent && !final(self).state().cancelled
            },
            old(self).state().wf() && old(self).state().sent ==> {
                &&& r == Err::<(), SendError<D>>(SendError::Full(data))
                &&& final(self).state() == old(self).state()
            },
            exists|delivered: bool|
                send_next(old(self).state(), delivered) == final(self).state()
                && #[trigger] send_result(old(self).state(), delivered, data) == r,
    {
        let ghost d = data;
        match self.sender.take() {
            Some(sender) => {
                let sent = sender.send(data);
                let r = self.settle_send(sent);
                assert(send_result(old(self).state(), sent is Ok, d) == r);
                r
            },
            None => {
                let r = if self.sent {
                    Err(SendError::Full(data))
                } else {
                    Err(SendError::Closed(data))
                };
                assert(send_result(old(self).state(), true, d) == r);
                r
            },
        }
    }

    /// Records what the transport answered to the one send handed to it:
    /// `Ok` marks the value sent; `Err` hands the value back as `Closed` and
    /// marks the sender cancelled.
    fn settle_send(&mut self, sent: Result<(), D>) -> (r: Result<(), SendError<D>>)
        ensures
            sent is Ok ==> r == Ok::<(), SendError<D>>(())
                && final(self).state() == (OnceSenderState { sent: true, ..old(self).state() }),
            sent matches Err(v) ==> r == Err::<(), SendError<D>>(SendError::Closed(v))
                && final(self).state() == (OnceSenderState { cancelled: true, ..old(self).state() }),
    {
        match sent {
            Ok(()) => {
                self.sent = true;
                Ok(())
            },
            Err(v) => {
                self.cancelled = true;
                Err(SendError::Closed(v))
            },
        }
    }
}

impl<D> OnceReceiver<D> {
    /// Whether this side still holds the capability to receive.
    pub closed spec fn armed(&self) -> bool {
        self.receiver is Some
    }

    /// The flags together with [`OnceReceiver::armed`].
    pub closed spec fn state(&self) -> OnceReceiverState {
        OnceReceiverState {
            received: self.received,
            closed: self.closed,
            cancelled: self.cancelled,
            armed: self.armed(),
        }
    }

    pub(crate) fn new(receiver: Receiver<D>) -> (r: OnceReceiver<D>)
        ensures
            r.state() == fresh_receiver(),
    {
        OnceReceiver { received: false, closed: false, cancelled: false, receiver: Some(receiver) }
    }

    /// Whether `received` is set.
    pub fn is_received(&self) -> (r: bool)
        ensures
            r == self.state().received,
    {
        self.received
    }

    /// Whether `closed` is set.
    pub fn is_closed(&self) -> (r: bool)
        ensures
            r == self.state().closed,
    {
        self.closed
    }

    /// Whether `cancelled` is set.
    pub fn is_cancelled(&self) -> (r: bool)
        ensures
            r == self.state().cancelled,
    {
        self.cancelled
    }

    /// Tries to receive the value: `Ok` with it once it has arrived, `Empty`
    /// while nothing has been sent, `Closed` once the sender is gone or this
    /// side no longer holds its capability.
    pub fn try_recv(&mut self) -> (r: Result<D, ReceiveError>)
        ensures
            old(self).state().wf() && r is Ok ==> {
                &&& !old(self).state().received && final(self).state().received
                &&& !final(self).state().cancelled && !final(self).state().armed
            },
            old(self).state().wf() ==> final(self).state().wf(),
            old(self).state().wf() && !old(self).state().armed ==> {
                &&& r == Err::<D, ReceiveError>(ReceiveError::Closed)
                &&& final(self).state() == old(self).state()
            },
            exists|a: Arrival<D>|
                recv_next(old(self).state(), a) == final(self).state()
                && #[trigger] recv_result(old(self).state(), a) == r,
    {
        let a = match &mut self.receiver {
            Some(receiver) => match receiver.try_recv() {
                Ok(Some(data)) => Arrival::Value(data),
                Ok(None) => Arrival::Nothing,
                Err(_) => Arrival::Gone,
            },
            None => Arrival::Gone,
        };
        let ghost seen = a;
        let r = self.take_arrival(a);
        assert(recv_result(old(self).state(), seen) == r);
        r
    }

    /// Polls for the value, registering the task of `cx` to be woken when it
    /// may have come. `None` while it is pending; otherwise what `try_recv`
    /// would answer, with the same changes of state.
    pub fn poll_recv(&mut self, cx: &mut Context<'_>) -> (r: Option<Result<D, ReceiveError>>)
        ensures
            old(self).state().wf() ==> final(self).state().wf(),
            old(self).state().wf() && !old(self).state().armed ==> {
                &&& r == Some(Err::<D, ReceiveError>(ReceiveError::Closed))
                &&& final(self).state() == old(self).state()
            },
            exists|a: Arrival<D>|
                recv_next(old(self).state(), a) == final(self).state()
                && #[trigger] poll_result(old(self).state(), a) == r,
    {
        let a = match &mut self.receiver {
            Some(receiver) => oneshot_poll(receiver, cx),
            None => Arrival::Gone,
        };
        let ghost seen = a;
        let r = if let Arrival::Nothing = a {
            None
        } else {
            Some(self.take_arrival(a))
        };
        assert(poll_result(old(self).state(), seen) == r);
        r
    }

    /// Records what the transport answered to a receive attempt: the value is
    /// handed out and marks the receiver done; a sender gone marks it
    /// cancelled; either gives up the capability. Without the capability the
    /// answer is `Closed`.
    fn take_arrival(&mut self, a: Arrival<D>) -> (r: Result<D, ReceiveError>)
        ensures
            final(self).state() == recv_next(old(self).state(), a),
            r == recv_result(old(self).state(), a),
    {
        if self.receiver.is_none() {
            return Err(ReceiveError::Closed);
        }
        match a {
            Arrival::Value(data) => {
                self.received = true;
                self.receiver = None;
                Ok(data)
            },
            Arrival::Nothing => Err(ReceiveError::Empty),
            Arrival::Gone => {
                self.cancelled = true;
                self.receiver = None;
                Err(ReceiveError::Closed)
            },
        }
    }

    /// Closes the channel: the capability to receive is given up (closing the
    /// transport first, so that a later send fails) and `closed` is set. Only
    /// the first call succeeds; later ones return `Closed`, and so does one on
    /// a receiver that saw the sender gone, which then stays as it is.
    pub fn close(&mut self) -> (r: Result<(), CloseError>)
        ensures
            old(self).state().wf() ==> final(self).state().wf(),
            final(self).state() == close_next(old(self).state()),
            r == close_result(old(self).state()),
    {
        if self.closed || self.cancelled {
            return Err(CloseError::Closed);
        }
        if let Some(receiver) = &mut self.receiver {
            receiver.close();
        }
        self.receiver = None;
        self.closed = true;
        Ok(())
    }
}

} // verus!
