//! The part of a connection that notification delivery works on: the queue of
//! pending notifications and the desynchronization latch.

use crate::error::Error;
use crate::record::Notification;
use std::collections::VecDeque;
use std::time::Duration;
use vstd::prelude::*;

verus! {

/// How a pull waits on the transport once nothing is pending.
#[derive(Clone, Copy, Debug)]
pub enum ReadStrategy {
    /// Poll once and return at once when no data is there.
    NonBlocking,
    /// Block until a message or a failure arrives.
    Blocking,
    /// Block for at most the given time, counted from the start of the read.
    Timeout(Duration),
}

/// Where a pull stands once the queue and the latch have been consulted.
#[derive(Debug)]
pub enum Step {
    /// The pull is over with this result; the transport is left alone.
    Done(Result<Option<Notification>, Error>),
    /// Nothing is pending and the connection is healthy: the transport has to
    /// be read in the given way, and the pull ends with what the read gives.
    Read(ReadStrategy),
}

/// The mathematical state of a connection, as far as notifications go.
pub struct ConnectionState {
    /// The notifications received and not yet handed out, oldest first.
    pub pending: Seq<Notification>,
    /// Whether the protocol stream has been given up.
    pub desynchronized: bool,
}

impl ConnectionState {
    /// The state of a connection that has just been established.
    pub open spec fn init() -> ConnectionState {
        ConnectionState { pending: Seq::empty(), desynchronized: false }
    }

    /// The state after `notification` has been received and queued.
    pub open spec fn append(self, notification: Notification) -> ConnectionState {
        ConnectionState { pending: self.pending.push(notification), ..self }
    }

    /// The state after the latch has been set.
    pub open spec fn desynchronize(self) -> ConnectionState {
        ConnectionState { desynchronized: true, ..self }
    }

    /// What a pull with the given strategy comes to in this state: the oldest
    /// pending notification; without one, the desynchronization error if the
    /// latch is set; else a read of the transport.
    pub open spec fn pull(self, strategy: ReadStrategy) -> Step {
        if self.pending.len() > 0 {
            Step::Done(Ok(Some(self.pending[0])))
        } else if self.desynchronized {
            Step::Done(Err(Error::Desynchronized))
        } else {
            Step::Read(strategy)
        }
    }

    /// The state that a pull leaves: the queue without its oldest entry, the
    /// latch as it was.
    pub open spec fn after_pull(self) -> ConnectionState {
        if self.pending.len() > 0 {
            ConnectionState { pending: self.pending.drop_first(), ..self }
        } else {
            self
        }
    }
}

/// The notification state of one connection. Whoever holds it mutably has the
/// exclusive access that one step of a pull needs.
pub struct Connection {
    notifications: VecDeque<Notification>,
    desynchronized: bool,
}

impl View for Connection {
    type V = ConnectionState;

    closed spec fn view(&self) -> ConnectionState {
        ConnectionState { pending: self.notifications@, desynchronized: self.desynchronized }
    }
}

impl Connection {
    /// A connection with nothing pending and the latch clear.
    pub fn new() -> (conn: Connection)
        ensures
            conn@ == ConnectionState::init(),
    {
        Connection { notifications: VecDeque::new(), desynchronized: false }
    }

    /// Queues a notification that was met on the wire while something else
    /// was being read.
    pub fn push_notification(&mut self, notification: Notification)
        ensures
            final(self)@ == old(self)@.append(notification),
    {
        self.notifications.push_back(notification);
    }

    /// Sets the latch. Nothing in this library clears it again.
    pub fn set_desynchronized(&mut self)
        ensures
            final(self)@ == old(self)@.desynchronize(),
    {
        self.desynchronized = true;
    }

    /// Whether the latch is set.
    pub fn is_desynchronized(&self) -> (b: bool)
        ensures
            b == self@.desynchronized,
    {
        self.desynchronized
    }

    /// The number of pending notifications.
    pub fn pending_len(&self) -> (n: usize)
        ensures
            n == self@.pending.len(),
    {
        self.notifications.len()
    }

    /// Removes and returns the oldest pending notification, if there is one.
    pub fn pop_front(&mut self) -> (front: Option<Notification>)
        ensures
            front == (if old(self)@.pending.len() > 0 {
                Some(old(self)@.pending[0])
            } else {
                None
            }),
            final(self)@ == old(self)@.after_pull(),
    {
        self.notifications.pop_front()
    }

    /// One pull, up to the point where the transport is needed: the queue
    /// first, then the latch, and only then a read.
    pub fn pull(&mut self, strategy: ReadStrategy) -> (step: Step)
        ensures
            step == old(self)@.pull(strategy),
            final(self)@ == old(self)@.after_pull(),
    {
        if let Some(notification) = self.notifications.pop_front() {
            return Step::Done(Ok(Some(notification)));
        }
        if self.desynchronized {
            return Step::Done(Err(Error::Desynchronized));
        }
        Step::Read(strategy)
    }
}

} // verus!
