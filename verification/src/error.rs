use vstd::prelude::*;

verus! {

/// Error type for subscriber operations.
#[derive(Debug, Clone, PartialEq, Eq, Structural)]
pub enum BusError {
    /// Try receive-related errors.
    TryRecv {
        /// No new message is available.
        empty: bool,
        /// The topic has been dropped and no more messages will be sent.
        disconnected: bool,
    },
}

/// The error value for "no new message since the last successful read".
pub open spec fn empty_error() -> BusError {
    BusError::TryRecv { empty: true, disconnected: false }
}

/// The error value for "the topic can no longer be resolved".
pub open spec fn disconnected_error() -> BusError {
    BusError::TryRecv { empty: false, disconnected: true }
}

impl BusError {
    /// True when the error reports that the topic can no longer be resolved.
    pub open spec fn spec_is_disconnected(self) -> bool {
        self matches BusError::TryRecv { disconnected: true, .. }
    }

    /// True when the error reports that no new message was available.
    pub open spec fn spec_is_empty(self) -> bool {
        self matches BusError::TryRecv { empty: true, .. }
    }

    /// Creates an error for when the message queue is empty.
    pub fn message_queue_empty() -> (e: Self)
        ensures
            e == (BusError::TryRecv { empty: true, disconnected: false }),
    {
        BusError::TryRecv { empty: true, disconnected: false }
    }

    /// Creates an error for when the topic has been disconnected.
    pub fn topic_disconnected() -> (e: Self)
        ensures
            e == (BusError::TryRecv { empty: false, disconnected: true }),
    {
        BusError::TryRecv { empty: false, disconnected: true }
    }

    /// Returns true if the error is due to disconnection.
    pub fn is_disconnected(&self) -> (r: bool)
        ensures
            r == self.spec_is_disconnected(),
    {
        match self {
            BusError::TryRecv { disconnected, .. } => *disconnected,
        }
    }

    /// Returns true if the error is due to empty state.
    pub fn is_empty(&self) -> (r: bool)
        ensures
            r == self.spec_is_empty(),
    {
        match self {
            BusError::TryRecv { empty, .. } => *empty,
        }
    }

    /// A human-readable description of the error.
    pub fn message(&self) -> (s: String)
        ensures
            self.spec_is_empty() ==> s@ == "TryRecv error: No message available"@,
            !self.spec_is_empty() && self.spec_is_disconnected() ==> s@
                == "TryRecv error: Topic disconnected"@,
            !self.spec_is_empty() && !self.spec_is_disconnected() ==> s@
                == "Unknown bus error"@,
    {
        match self {
            BusError::TryRecv { empty: true, .. } => "TryRecv error: No message available".to_owned(),
            BusError::TryRecv { disconnected: true, .. } => "TryRecv error: Topic disconnected".to_owned(),
            _ => "Unknown bus error".to_owned(),
        }
    }
}

} // verus!
