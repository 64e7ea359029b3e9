use vstd::prelude::*;

mod error;
mod transport;

pub mod bounded;
pub mod once;
pub mod queue;
pub mod unbounded;

pub use bounded::{BoundedReceiver, BoundedSender};
pub use error::{CloseError, DisconnectError, ReceiveError, SendError};
pub use once::{OnceReceiver, OnceSender};
pub use unbounded::{UnboundedReceiver, UnboundedSender};

verus! {

/// A connected pair of fresh bounded-channel sides. The transport keeps
/// `buf` slots shared by all senders plus one slot for each sender, so even
/// with `buf == 0` each sender can have one value queued.
pub fn bounded<D>(buf: usize) -> (r: (BoundedSender<D>, BoundedReceiver<D>))
    requires
        buf < usize::MAX >> 2,
    ensures
        r.0.state() == queue::fresh_sender(),
        r.1.state() == queue::fresh_receiver(),
{
    let (sender, receiver) = futures_channel::mpsc::channel(buf);
    (BoundedSender::new(sender), BoundedReceiver::new(receiver))
}

/// A connected pair of fresh once-channel sides.
pub fn once<D>() -> (r: (OnceSender<D>, OnceReceiver<D>))
    ensures
        r.0.state() == once::fresh_sender(),
        r.1.state() == once::fresh_receiver(),
{
    let (sender, receiver) = futures_channel::oneshot::channel();
    (OnceSender::new(sender), OnceReceiver::new(receiver))
}

/// A connected pair of fresh unbounded-channel sides.
pub fn unbounded<D>() -> (r: (UnboundedSender<D>, UnboundedReceiver<D>))
    ensures
        r.0.state() == queue::fresh_sender(),
        r.1.state() == queue::fresh_receiver(),
{
    let (sender, receiver) = futures_channel::mpsc::unbounded();
    (UnboundedSender::new(sender), UnboundedReceiver::new(receiver))
}

} // verus!
