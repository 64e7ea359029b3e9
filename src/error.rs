use vstd::prelude::*;

verus! {

/// Why a value could not be sent. Each variant hands the rejected value back.
#[derive(PartialEq, Eq, Debug)]
pub enum SendError<D> {
    /// On a bounded channel the buffer is full for now; on a once-channel a
    /// value was already sent.
    Full(D),
    /// This sender detached itself from the channel.
    Disconnected(D),
    /// The receiving side is gone or the channel was closed.
    Closed(D),
}

/// Why no value was received.
#[derive(PartialEq, Eq, Debug, Clone, Copy)]
pub enum ReceiveError {
    /// Nothing is available yet; the channel is still open.
    Empty,
    /// The peer detached itself.
    Disconnected,
    /// The channel is closed: no value will ever arrive.
    Closed,
}

/// Why a sender could not disconnect itself.
#[derive(PartialEq, Eq, Debug, Clone, Copy)]
pub enum DisconnectError {
    /// This sender had already disconnected itself.
    Disconnected,
    /// The channel was already closed.
    Closed,
}

/// Why a channel could not be closed.
#[derive(PartialEq, Eq, Debug, Clone, Copy)]
pub enum CloseError {
    /// This sender had disconnected itself before.
    Disconnected,
    /// The channel was already closed.
    Closed,
}

impl<D> SendError<D> {
    /// The value that was rejected, whatever the cause.
    pub open spec fn payload(&self) -> D {
        match self {
            SendError::Full(data) => *data,
            SendError::Disconnected(data) => *data,
            SendError::Closed(data) => *data,
        }
    }

    pub fn inner(&self) -> (r: &D)
        ensures
            *r == self.payload(),
    {
        match self {
            SendError::Full(data) => data,
            SendError::Disconnected(data) => data,
            SendError::Closed(data) => data,
        }
    }

    pub fn into_inner(self) -> (r: D)
        ensures
            r == self.payload(),
    {
        match self {
            SendError::Full(data) => data,
            SendError::Disconnected(data) => data,
            SendError::Closed(data) => data,
        }
    }

    pub fn is_full(&self) -> (r: bool)
        ensures
            r == (self is Full),
    {
        if let SendError::Full(_) = self {
            true
        } else {
            false
        }
    }

    pub fn is_disconnected(&self) -> (r: bool)
        ensures
            r == (self is Disconnected),
    {
        if let SendError::Disconnected(_) = self {
            true
        } else {
            false
        }
    }

    pub fn is_closed(&self) -> (r: bool)
        ensures
            r == (self is Closed),
    {
        if let SendError::Closed(_) = self {
            true
        } else {
            false
        }
    }
}

impl ReceiveError {
    pub fn is_empty(&self) -> (r: bool)
        ensures
            r == (*self == ReceiveError::Empty),
    {
        matches!(self, ReceiveError::Empty)
    }

    pub fn is_disconnected(&self) -> (r: bool)
        ensures
            r == (*self == ReceiveError::Disconnected),
    {
        matches!(self, ReceiveError::Disconnected)
    }

    pub fn is_closed(&self) -> (r: bool)
        ensures
            r == (*self == ReceiveError::Closed),
    {
        matches!(self, ReceiveError::Closed)
    }
}

impl DisconnectError {
    pub fn is_disconnected(&self) -> (r: bool)
        ensures
            r == (*self == DisconnectError::Disconnected),
    {
        matches!(self, DisconnectError::Disconnected)
    }

    pub fn is_closed(&self) -> (r: bool)
        ensures
            r == (*self == DisconnectError::Closed),
    {
        matches!(self, DisconnectError::Closed)
    }
}

impl CloseError {
    pub fn is_disconnected(&self) -> (r: bool)
        ensures
            r == (*self == CloseError::Disconnected),
    {
        matches!(self, CloseError::Disconnected)
    }

    pub fn is_closed(&self) -> (r: bool)
        ensures
            r == (*self == CloseError::Closed),
    {
        matches!(self, CloseError::Closed)
    }
}

} // verus!
