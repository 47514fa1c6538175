//! Histories of a connection: what holds of the queue and the latch over any
//! sequence of arrivals, latchings and pulls.

use crate::connection::{ConnectionState, ReadStrategy, Step};
use crate::error::Error;
use crate::iter::{delivered, is_expected, Polled, Pulled};
use crate::record::Notification;
use vstd::prelude::*;

verus! {

/// One thing that happens to the notification state of a connection.
pub enum Event {
    /// The decoder queues a notification that it met on the wire.
    Append(Notification),
    /// The decoder gives the protocol stream up and sets the latch.
    Desynchronize,
    /// A consumer pulls with `strategy`. Should the pull come to read the
    /// transport, the transport answers `reply`.
    Pull { strategy: ReadStrategy, reply: Polled },
}

impl ConnectionState {
    /// The state after `event`.
    pub open spec fn step(self, event: Event) -> ConnectionState {
        match event {
            Event::Append(notification) => self.append(notification),
            Event::Desynchronize => self.desynchronize(),
            Event::Pull { .. } => self.after_pull(),
        }
    }

    /// What a pull in this state returns when the transport, if asked,
    /// answers `reply`.
    pub open spec fn pulled(self, strategy: ReadStrategy, reply: Polled) -> Pulled {
        match self.pull(strategy) {
            Step::Done(pulled) => pulled,
            Step::Read(_) => delivered(reply),
        }
    }
}

/// The state that `events` lead to from `start`.
pub open spec fn run(start: ConnectionState, events: Seq<Event>) -> ConnectionState
    decreases events.len(),
{
    if events.len() == 0 {
        start
    } else {
        run(start, events.drop_last()).step(events.last())
    }
}

/// The notifications that `events` queue, in the order of their arrival.
pub open spec fn appended(events: Seq<Event>) -> Seq<Notification>
    decreases events.len(),
{
    if events.len() == 0 {
        Seq::empty()
    } else {
        let before = appended(events.drop_last());
        match events.last() {
            Event::Append(notification) => before.push(notification),
            _ => before,
        }
    }
}

/// The notifications that the pulls among `events` take from the queue, in
/// the order of the pulls.
pub open spec fn taken(start: ConnectionState, events: Seq<Event>) -> Seq<Notification>
    decreases events.len(),
{
    if events.len() == 0 {
        Seq::empty()
    } else {
        let before = taken(start, events.drop_last());
        let state = run(start, events.drop_last());
        match events.last() {
            Event::Pull { .. } if state.pending.len() > 0 => before.push(state.pending[0]),
            _ => before,
        }
    }
}

/// The notifications that reach this layer over `events`, in the order of
/// their arrival: those that the decoder queues, and those that a read hands
/// to the pull that asked for it.
pub open spec fn arrived(start: ConnectionState, events: Seq<Event>) -> Seq<Notification>
    decreases events.len(),
{
    if events.len() == 0 {
        Seq::empty()
    } else {
        let before = arrived(start, events.drop_last());
        let state = run(start, events.drop_last());
        match events.last() {
            Event::Append(notification) => before.push(notification),
            Event::Pull { strategy, reply } => match (state.pull(strategy), delivered(reply)) {
                (Step::Read(_), Ok(Some(notification))) => before.push(notification),
                _ => before,
            },
            Event::Desynchronize => before,
        }
    }
}

/// The notifications that the pulls among `events` return, in the order of
/// the pulls.
pub open spec fn observed(start: ConnectionState, events: Seq<Event>) -> Seq<Notification>
    decreases events.len(),
{
    if events.len() == 0 {
        Seq::empty()
    } else {
        let before = observed(start, events.drop_last());
        let state = run(start, events.drop_last());
        match events.last() {
            Event::Pull { strategy, reply } => match state.pulled(strategy, reply) {
                Ok(Some(notification)) => before.push(notification),
                _ => before,
            },
            _ => before,
        }
    }
}

/// Whether every event of `events` is a pull.
pub open spec fn only_pulls(events: Seq<Event>) -> bool {
    forall|i: int| 0 <= i < events.len() ==> events[i] is Pull
}

/// First in, first out: over any history, what the pulls took from the queue
/// followed by what is still pending is what was pending at the start followed
/// by what was queued since, in that order.
pub proof fn fifo(start: ConnectionState, events: Seq<Event>)
    ensures
        taken(start, events) + run(start, events).pending == start.pending + appended(events),
        taken(start, events).is_prefix_of(start.pending + appended(events)),
    decreases events.len(),
{
    if events.len() > 0 {
        let earlier = events.drop_last();
        fifo(start, earlier);
        let state = run(start, earlier);
        let out = taken(start, earlier);
        let queued = appended(earlier);
        match events.last() {
            Event::Append(notification) => {
                assert(out + state.pending.push(notification) =~= (out + state.pending).push(
                    notification,
                ));
                assert(start.pending + queued.push(notification) =~= (start.pending + queued).push(
                    notification,
                ));
            },
            Event::Desynchronize => {},
            Event::Pull { .. } => {
                if state.pending.len() > 0 {
                    assert(out.push(state.pending[0]) + state.pending.drop_first() =~= out
                        + state.pending);
                }
            },
        }
    } else {
        assert(taken(start, events) + start.pending =~= start.pending + appended(events));
    }
    let all = start.pending + appended(events);
    assert(all.subrange(0, taken(start, events).len() as int) =~= taken(start, events));
}

/// The same across both sources: over any history, what the pulls returned
/// followed by what is still pending is what was pending at the start followed
/// by what arrived since, queued or read. A notification that waits in the
/// queue goes out before one that a read brings.
pub proof fn fifo_across_sources(start: ConnectionState, events: Seq<Event>)
    ensures
        observed(start, events) + run(start, events).pending == start.pending + arrived(
            start,
            events,
        ),
    decreases events.len(),
{
    if events.len() > 0 {
        let earlier = events.drop_last();
        fifo_across_sources(start, earlier);
        let state = run(start, earlier);
        let out = observed(start, earlier);
        let come = arrived(start, earlier);
        match events.last() {
            Event::Append(notification) => {
                assert(out + state.pending.push(notification) =~= (out + state.pending).push(
                    notification,
                ));
                assert(start.pending + come.push(notification) =~= (start.pending + come).push(
                    notification,
                ));
            },
            Event::Desynchronize => {},
            Event::Pull { strategy, reply } => {
                if state.pending.len() > 0 {
                    assert(out.push(state.pending[0]) + state.pending.drop_first() =~= out
                        + state.pending);
                } else if let Ok(Some(notification)) = state.pulled(strategy, reply) {
                    assert(out + state.pending =~= out);
                    assert(out.push(notification) + state.pending =~= out.push(notification));
                    assert(start.pending + come.push(notification) =~= (start.pending + come).push(
                        notification,
                    ));
                }
            },
        }
    } else {
        assert(observed(start, events) + start.pending =~= start.pending + arrived(start, events));
    }
}

/// Running one history after another is running the two as one.
pub proof fn lemma_run_concat(start: ConnectionState, first: Seq<Event>, then: Seq<Event>)
    ensures
        run(start, first + then) == run(run(start, first), then),
        appended(first + then) == appended(first) + appended(then),
    decreases then.len(),
{
    if then.len() == 0 {
        assert(first + then =~= first);
        assert(appended(first) + appended(then) =~= appended(first));
    } else {
        assert((first + then).drop_last() =~= first + then.drop_last());
        lemma_run_concat(start, first, then.drop_last());
        assert(appended(first + then) =~= appended(first) + appended(then));
    }
}

/// Pulls alone queue nothing, and as many of them as there are pending
/// notifications, or more, empty the queue.
pub proof fn lemma_pulls_drain(start: ConnectionState, pulls: Seq<Event>)
    requires
        only_pulls(pulls),
    ensures
        appended(pulls) == Seq::<Notification>::empty(),
        pulls.len() >= start.pending.len() ==> run(start, pulls).pending.len() == 0,
        pulls.len() <= start.pending.len() ==> run(start, pulls).pending.len()
            == start.pending.len() - pulls.len(),
    decreases pulls.len(),
{
    if pulls.len() > 0 {
        assert(pulls.last() is Pull);
        lemma_pulls_drain(start, pulls.drop_last());
    }
}

/// No loss: every notification that was pending or was queued over `events`
/// is taken from the queue exactly once, in its place, as soon as enough
/// pulls have followed, whatever the strategies of those pulls and whatever
/// else has happened.
pub proof fn no_loss(start: ConnectionState, events: Seq<Event>, pulls: Seq<Event>)
    requires
        only_pulls(pulls),
        pulls.len() >= run(start, events).pending.len(),
    ensures
        taken(start, events + pulls) == start.pending + appended(events),
        run(start, events + pulls).pending.len() == 0,
{
    lemma_run_concat(start, events, pulls);
    lemma_pulls_drain(run(start, events), pulls);
    fifo(start, events + pulls);
    assert(taken(start, events + pulls) =~= taken(start, events + pulls) + run(
        start,
        events + pulls,
    ).pending);
    assert(start.pending + appended(events) =~= start.pending + (appended(events) + appended(
        pulls,
    )));
}

/// Nothing for now is no end: after a pull has returned nothing, a
/// notification that is queued is what the next pull returns, with any
/// strategy, whatever the transport would have answered, and whatever has
/// become of the latch in between.
pub proof fn resumable(
    state: ConnectionState,
    first: ReadStrategy,
    reply: Polled,
    notification: Notification,
    second: ReadStrategy,
    later: Polled,
)
    requires
        state.pulled(first, reply) == Pulled::Ok(None),
    ensures
        state.after_pull() == state,
        state.append(notification).pull(second) == Step::Done(Ok(Some(notification))),
        state.append(notification).pulled(second, later) == Pulled::Ok(Some(notification)),
        state.desynchronize().append(notification).pulled(second, later) == Pulled::Ok(
            Some(notification),
        ),
        state.append(notification).after_pull() == state,
{
    assert(state.append(notification).pending.drop_first() =~= state.pending);
}

/// The latch is sticky: no event clears it.
pub proof fn latch_is_sticky(start: ConnectionState, events: Seq<Event>)
    requires
        start.desynchronized,
    ensures
        run(start, events).desynchronized,
    decreases events.len(),
{
    if events.len() > 0 {
        latch_is_sticky(start, events.drop_last());
    }
}

/// Queue, then latch: with the latch set, a pull with any strategy still
/// hands out what is pending, oldest first; with nothing pending it fails
/// with the desynchronization error; and it never reads the transport.
pub proof fn desynchronized_pull(state: ConnectionState, strategy: ReadStrategy, reply: Polled)
    requires
        state.desynchronized,
    ensures
        !(state.pull(strategy) is Read),
        state.pending.len() > 0 ==> state.pulled(strategy, reply) == Pulled::Ok(
            Some(state.pending[0]),
        ),
        state.pending.len() == 0 ==> state.pulled(strategy, reply) == Pulled::Err(
            Error::Desynchronized,
        ),
        state.after_pull().desynchronized,
{
}

/// Once the latch is set, it decides every later pull. The pull at place `at`
/// of any history does not read the transport: it hands out the oldest
/// pending notification, or, where it finds the queue empty, fails with the
/// desynchronization error and leaves the state as it was.
pub proof fn desynchronized_for_good(start: ConnectionState, events: Seq<Event>, at: int)
    requires
        start.desynchronized,
        0 <= at < events.len(),
        events[at] is Pull,
    ensures
        ({
            let state = run(start, events.take(at));
            let pulled = state.pulled(events[at]->strategy, events[at]->reply);
            &&& state.desynchronized
            &&& !(state.pull(events[at]->strategy) is Read)
            &&& state.pending.len() > 0 ==> pulled == Pulled::Ok(Some(state.pending[0]))
            &&& state.pending.len() == 0 ==> pulled == Pulled::Err(Error::Desynchronized)
            &&& state.pending.len() == 0 ==> state.step(events[at]) == state
        }),
{
    latch_is_sticky(start, events.take(at));
}

/// A pull that waits for as long as it takes never returns nothing: it gives
/// a notification or an error.
pub proof fn blocking_is_never_empty(state: ConnectionState, reply: Polled)
    requires
        is_expected(reply),
        reply != Polled::Ok(None),
    ensures
        state.pulled(ReadStrategy::Blocking, reply) != Pulled::Ok(None),
{
}

} // verus!
