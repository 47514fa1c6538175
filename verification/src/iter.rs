//! The handle on a connection's notifications and the three ways to pull
//! from it: without waiting, waiting for as long as it takes, and waiting up
//! to a deadline.
//!
//! A pull is made of two halves with the transport read between them. `next`
//! is the first half: it consults the queue and the latch and says whether a
//! read is needed. `finish` is the second: it turns what the read gave into
//! the result of the pull. The caller holds the connection exclusively for
//! the whole pull and lets go of it afterwards.

use crate::connection::{Connection, ConnectionState, ReadStrategy, Step};
use crate::error::Error;
use crate::record::{Message, Notification};
use std::time::Duration;
use vstd::prelude::*;

verus! {

/// What a read that may come back empty-handed has given: a message, nothing
/// yet, or a failure of the transport.
pub type Polled = Result<Option<Message>, std::io::Error>;

/// What a read that waits for as long as it takes has given: a message or a
/// failure of the transport.
pub type Awaited = Result<Message, std::io::Error>;

/// The result of a pull: a notification, nothing for now, or an error.
/// Nothing for now is no end: a later pull may give a notification again.
pub type Pulled = Result<Option<Notification>, Error>;

/// Whether `polled` is an answer that the decoder may give to this layer: any
/// message in it is a notification.
pub open spec fn is_expected(polled: Polled) -> bool {
    polled matches Ok(Some(message)) ==> message.notification().is_some()
}

/// Tells whether `polled` is an answer that the decoder may give to this
/// layer. A caller that cannot vouch for its decoder asks this before
/// `finish`, and treats `false` as the defect that it is.
pub fn has_expected_kind(polled: &Polled) -> (b: bool)
    ensures
        b == is_expected(*polled),
{
    match polled {
        Ok(Some(message)) => message.is_notification(),
        _ => true,
    }
}

/// The result of a pull whose read gave `polled`: the notification in its
/// record form, nothing for now where no data was there, and a transport
/// failure handed on as it came.
pub open spec fn delivered(polled: Polled) -> Pulled {
    match polled {
        Ok(Some(message)) => Ok(Some(message.notification().unwrap())),
        Ok(None) => Ok(None),
        Err(err) => Err(Error::Io(err)),
    }
}

/// An answer of a read that waits for as long as it takes, written as one of
/// a read that may come back empty-handed. It is never nothing.
pub open spec fn awaited(outcome: Awaited) -> Polled {
    match outcome {
        Ok(message) => Ok(Some(message)),
        Err(err) => Err(err),
    }
}

/// Turns the answer of a read into the result of the pull.
pub fn deliver(polled: Polled) -> (pulled: Pulled)
    requires
        is_expected(polled),
    ensures
        pulled == delivered(polled),
{
    match polled {
        Ok(Some(message)) => Ok(message.into_notification()),
        Ok(None) => Ok(None),
        Err(err) => Err(Error::Io(err)),
    }
}

/// Notifications from the backend: a view of what is pending on a connection
/// and the maker of the three iterators.
pub struct Notifications<'conn> {
    conn: &'conn Connection,
}

impl<'conn> View for Notifications<'conn> {
    type V = ConnectionState;

    closed spec fn view(&self) -> ConnectionState {
        self.conn@
    }
}

impl<'conn> Notifications<'conn> {
    /// The handle on the notifications of `conn`.
    pub fn new(conn: &'conn Connection) -> (notifications: Notifications<'conn>)
        ensures
            notifications@ == conn@,
    {
        Notifications { conn: conn }
    }

    /// Returns the number of pending notifications.
    pub fn len(&self) -> (n: usize)
        ensures
            n == self@.pending.len(),
    {
        self.conn.pending_len()
    }

    /// Determines if there are any pending notifications.
    pub fn is_empty(&self) -> (b: bool)
        ensures
            b == (self@.pending.len() == 0),
    {
        self.len() == 0
    }

    /// Returns an iterator over pending notifications that never waits.
    ///
    /// It may give a notification again after it has given nothing, if more
    /// notifications are received.
    pub fn iter(&self) -> (iter: Iter)
        ensures
            iter.strategy() == ReadStrategy::NonBlocking,
    {
        Iter {}
    }

    /// Returns an iterator over notifications that blocks until one is
    /// received if none are pending. It never gives nothing.
    pub fn blocking_iter(&self) -> (iter: BlockingIter)
        ensures
            iter.strategy() == ReadStrategy::Blocking,
    {
        BlockingIter {}
    }

    /// Returns an iterator over notifications that blocks for at most
    /// `timeout`, on each pull anew, waiting to receive one if none are
    /// pending.
    ///
    /// It may give a notification again after it has given nothing, if more
    /// notifications are received.
    pub fn timeout_iter(&self, timeout: Duration) -> (iter: TimeoutIter)
        ensures
            iter.timeout() == timeout,
    {
        TimeoutIter { timeout: timeout }
    }
}

/// An iterator over pending notifications that never waits.
pub struct Iter {}

impl Iter {
    /// The way this iterator reads the transport.
    pub open spec fn strategy(&self) -> ReadStrategy {
        ReadStrategy::NonBlocking
    }

    /// The first half of a pull: the oldest pending notification; without
    /// one, the desynchronization error if the latch is set; else the request
    /// for a read that does not wait.
    pub fn next(&mut self, conn: &mut Connection) -> (step: Step)
        ensures
            step == old(conn)@.pull(ReadStrategy::NonBlocking),
            final(conn)@ == old(conn)@.after_pull(),
            *final(self) == *old(self),
    {
        conn.pull(ReadStrategy::NonBlocking)
    }

    /// The second half of a pull: the result for what the read gave.
    pub fn finish(&mut self, polled: Polled) -> (pulled: Pulled)
        requires
            is_expected(polled),
        ensures
            pulled == delivered(polled),
            *final(self) == *old(self),
    {
        deliver(polled)
    }

    /// The number of notifications pending on `conn` as the lower bound, and
    /// no upper bound: more may arrive.
    pub fn size_hint(&self, conn: &Connection) -> (hint: (usize, Option<usize>))
        ensures
            hint.0 == conn@.pending.len(),
            hint.1.is_none(),
    {
        (conn.pending_len(), None)
    }
}

/// An iterator over notifications which will block if none are pending.
pub struct BlockingIter {}

impl BlockingIter {
    /// The way this iterator reads the transport.
    pub open spec fn strategy(&self) -> ReadStrategy {
        ReadStrategy::Blocking
    }

    /// The first half of a pull: the oldest pending notification; without
    /// one, the desynchronization error if the latch is set; else the request
    /// for a read that waits for as long as it takes.
    pub fn next(&mut self, conn: &mut Connection) -> (step: Step)
        ensures
            step == old(conn)@.pull(ReadStrategy::Blocking),
            final(conn)@ == old(conn)@.after_pull(),
            *final(self) == *old(self),
    {
        conn.pull(ReadStrategy::Blocking)
    }

    /// The second half of a pull: the result for what the read gave, which
    /// is a notification or an error and never nothing.
    pub fn finish(&mut self, outcome: Awaited) -> (pulled: Pulled)
        requires
            is_expected(awaited(outcome)),
        ensures
            pulled == delivered(awaited(outcome)),
            pulled != Pulled::Ok(None),
            *final(self) == *old(self),
    {
        match outcome {
            Ok(message) => Ok(message.into_notification()),
            Err(err) => Err(Error::Io(err)),
        }
    }
}

/// An iterator over notifications which will block for a period of time if
/// none are pending.
pub struct TimeoutIter {
    timeout: Duration,
}

impl TimeoutIter {
    /// The time that this iterator was made with.
    pub closed spec fn timeout(&self) -> Duration {
        self.timeout
    }

    /// The way this iterator reads the transport: with its time, whole for
    /// every pull.
    pub open spec fn strategy(&self) -> ReadStrategy {
        ReadStrategy::Timeout(self.timeout())
    }

    /// The first half of a pull: the oldest pending notification; without
    /// one, the desynchronization error if the latch is set; else the request
    /// for a read that waits for at most this iterator's time.
    pub fn next(&mut self, conn: &mut Connection) -> (step: Step)
        ensures
            step == old(conn)@.pull(old(self).strategy()),
            final(conn)@ == old(conn)@.after_pull(),
            *final(self) == *old(self),
    {
        conn.pull(ReadStrategy::Timeout(self.timeout))
    }

    /// The second half of a pull: the result for what the read gave. A
    /// deadline that passed without a message gives nothing for now, not an
    /// error.
    pub fn finish(&mut self, polled: Polled) -> (pulled: Pulled)
        requires
            is_expected(polled),
        ensures
            pulled == delivered(polled),
            *final(self) == *old(self),
    {
        deliver(polled)
    }

    /// The number of notifications pending on `conn` as the lower bound, and
    /// no upper bound: more may arrive.
    pub fn size_hint(&self, conn: &Connection) -> (hint: (usize, Option<usize>))
        ensures
            hint.0 == conn@.pending.len(),
            hint.1.is_none(),
    {
        (conn.pending_len(), None)
    }
}

} // verus!
