use notifications::connection::{Connection, ReadStrategy, Step};
use notifications::error::Error;
use notifications::iter::{deliver, has_expected_kind, Notifications};
use notifications::record::{Message, Notification};
use std::io;
use std::time::Duration;

fn record(process_id: i32, channel: &str, payload: &str) -> Notification {
    Notification {
        process_id: process_id,
        channel: channel.to_string(),
        payload: payload.to_string(),
    }
}

fn message(process_id: i32, channel: &str, payload: &str) -> Message {
    Message::NotificationResponse {
        process_id: process_id,
        channel: channel.to_string(),
        payload: payload.to_string(),
    }
}

fn taken(step: Step) -> i32 {
    match step {
        Step::Done(Ok(Some(n))) => n.process_id,
        other => panic!("expected a queued record, got {:?}", other),
    }
}

#[test]
fn new_connection_is_empty_and_healthy() {
    let conn = Connection::new();
    assert_eq!(conn.pending_len(), 0);
    assert!(!conn.is_desynchronized());
    let notifications = Notifications::new(&conn);
    assert_eq!(notifications.len(), 0);
    assert!(notifications.is_empty());
}

#[test]
fn len_counts_pending_records() {
    let mut conn = Connection::new();
    conn.push_notification(record(1, "a", ""));
    conn.push_notification(record(2, "b", ""));
    conn.push_notification(record(3, "c", ""));
    {
        let notifications = Notifications::new(&conn);
        assert_eq!(notifications.len(), 3);
        assert!(!notifications.is_empty());
    }
    conn.pop_front();
    assert_eq!(Notifications::new(&conn).len(), 2);
    assert_eq!(conn.pending_len(), 2);
}

#[test]
fn pop_front_gives_oldest_first() {
    let mut conn = Connection::new();
    assert!(conn.pop_front().is_none());
    conn.push_notification(record(1, "a", "x"));
    conn.push_notification(record(2, "b", "y"));
    let first = conn.pop_front().unwrap();
    assert_eq!((first.process_id, first.channel.as_str(), first.payload.as_str()), (1, "a", "x"));
    let second = conn.pop_front().unwrap();
    assert_eq!((second.process_id, second.channel.as_str(), second.payload.as_str()), (2, "b", "y"));
    assert!(conn.pop_front().is_none());
    assert_eq!(conn.pending_len(), 0);
}

#[test]
fn pulls_observe_arrival_order_when_interleaved() {
    let mut conn = Connection::new();
    let mut iter = Notifications::new(&conn).iter();
    let mut blocking = Notifications::new(&conn).blocking_iter();
    let mut timed = Notifications::new(&conn).timeout_iter(Duration::from_millis(10));
    let mut seen = Vec::new();

    conn.push_notification(record(1, "a", ""));
    conn.push_notification(record(2, "a", ""));
    seen.push(taken(iter.next(&mut conn)));
    conn.push_notification(record(3, "a", ""));
    seen.push(taken(blocking.next(&mut conn)));
    conn.push_notification(record(4, "a", ""));
    conn.push_notification(record(5, "a", ""));
    seen.push(taken(timed.next(&mut conn)));
    seen.push(taken(iter.next(&mut conn)));
    seen.push(taken(blocking.next(&mut conn)));

    assert_eq!(seen, vec![1, 2, 3, 4, 5]);
    assert_eq!(conn.pending_len(), 0);
}

#[test]
fn every_queued_record_is_returned_exactly_once() {
    let mut conn = Connection::new();
    for id in 0..20 {
        conn.push_notification(record(id, "ch", "p"));
    }
    let mut iter = Notifications::new(&conn).iter();
    let mut blocking = Notifications::new(&conn).blocking_iter();
    let mut timed = Notifications::new(&conn).timeout_iter(Duration::from_secs(1));
    let mut seen = Vec::new();
    for turn in 0..20 {
        let step = match turn % 3 {
            0 => iter.next(&mut conn),
            1 => blocking.next(&mut conn),
            _ => timed.next(&mut conn),
        };
        seen.push(taken(step));
    }
    assert_eq!(seen, (0..20).collect::<Vec<i32>>());
    assert!(Notifications::new(&conn).is_empty());
    assert!(matches!(iter.next(&mut conn), Step::Read(ReadStrategy::NonBlocking)));
}

#[test]
fn empty_is_not_terminal() {
    let mut conn = Connection::new();
    let mut iter = Notifications::new(&conn).iter();
    assert!(matches!(iter.next(&mut conn), Step::Read(ReadStrategy::NonBlocking)));
    assert!(matches!(iter.finish(Ok(None)), Ok(None)));

    conn.push_notification(record(9, "again", "more"));
    match iter.next(&mut conn) {
        Step::Done(Ok(Some(n))) => {
            assert_eq!(n.process_id, 9);
            assert_eq!(n.channel, "again");
            assert_eq!(n.payload, "more");
        }
        other => panic!("expected the record, got {:?}", other),
    }

    // The same through a deadline iterator made afterwards.
    let mut timed = Notifications::new(&conn).timeout_iter(Duration::from_millis(5));
    assert!(matches!(timed.next(&mut conn), Step::Read(ReadStrategy::Timeout(_))));
    assert!(matches!(timed.finish(Ok(None)), Ok(None)));
    conn.push_notification(record(10, "again", "still more"));
    assert_eq!(taken(timed.next(&mut conn)), 10);
}

#[test]
fn latch_fails_every_later_pull() {
    let mut conn = Connection::new();
    let mut iter = Notifications::new(&conn).iter();
    conn.set_desynchronized();
    assert!(conn.is_desynchronized());
    for _ in 0..3 {
        assert!(matches!(iter.next(&mut conn), Step::Done(Err(Error::Desynchronized))));
    }
    let mut blocking = Notifications::new(&conn).blocking_iter();
    assert!(matches!(blocking.next(&mut conn), Step::Done(Err(Error::Desynchronized))));
    let mut timed = Notifications::new(&conn).timeout_iter(Duration::from_millis(1));
    assert!(matches!(timed.next(&mut conn), Step::Done(Err(Error::Desynchronized))));
    assert!(matches!(
        conn.pull(ReadStrategy::Blocking),
        Step::Done(Err(Error::Desynchronized))
    ));
    assert!(conn.is_desynchronized());
}

#[test]
fn latch_stays_set_through_appends_and_pulls() {
    let mut conn = Connection::new();
    conn.set_desynchronized();
    conn.push_notification(record(1, "a", ""));
    assert!(conn.is_desynchronized());
    assert_eq!(taken(conn.pull(ReadStrategy::NonBlocking)), 1);
    assert!(conn.is_desynchronized());
    conn.set_desynchronized();
    assert!(conn.is_desynchronized());
    assert!(matches!(
        conn.pull(ReadStrategy::NonBlocking),
        Step::Done(Err(Error::Desynchronized))
    ));
}

#[test]
fn each_iterator_asks_for_its_own_read() {
    let mut conn = Connection::new();
    let mut iter = Notifications::new(&conn).iter();
    let mut blocking = Notifications::new(&conn).blocking_iter();
    let mut timed = Notifications::new(&conn).timeout_iter(Duration::from_millis(250));
    assert!(matches!(iter.next(&mut conn), Step::Read(ReadStrategy::NonBlocking)));
    assert!(matches!(blocking.next(&mut conn), Step::Read(ReadStrategy::Blocking)));
    for _ in 0..2 {
        match timed.next(&mut conn) {
            Step::Read(ReadStrategy::Timeout(d)) => assert_eq!(d, Duration::from_millis(250)),
            other => panic!("expected a read with a deadline, got {:?}", other),
        }
    }
    assert_eq!(conn.pending_len(), 0);
    assert!(!conn.is_desynchronized());
}

#[test]
fn zero_timeout_is_carried_as_it_is() {
    let mut conn = Connection::new();
    let mut timed = Notifications::new(&conn).timeout_iter(Duration::from_secs(0));
    match timed.next(&mut conn) {
        Step::Read(ReadStrategy::Timeout(d)) => assert_eq!(d, Duration::new(0, 0)),
        other => panic!("expected a read with a deadline, got {:?}", other),
    }
}

#[test]
fn read_record_is_returned_field_by_field() {
    let conn = Connection::new();
    let mut iter = Notifications::new(&conn).iter();
    match iter.finish(Ok(Some(message(-3, "chan", "body")))) {
        Ok(Some(n)) => {
            assert_eq!(n.process_id, -3);
            assert_eq!(n.channel, "chan");
            assert_eq!(n.payload, "body");
        }
        other => panic!("expected the record, got {:?}", other),
    }
    let mut timed = Notifications::new(&conn).timeout_iter(Duration::from_millis(1));
    match timed.finish(Ok(Some(message(i32::MAX, "", "")))) {
        Ok(Some(n)) => {
            assert_eq!(n.process_id, i32::MAX);
            assert_eq!(n.channel, "");
            assert_eq!(n.payload, "");
        }
        other => panic!("expected the record, got {:?}", other),
    }
    match deliver(Ok(Some(message(i32::MIN, "c", "p")))) {
        Ok(Some(n)) => assert_eq!((n.process_id, n.channel.as_str(), n.payload.as_str()), (i32::MIN, "c", "p")),
        other => panic!("expected the record, got {:?}", other),
    }
}

#[test]
fn deadline_without_data_is_empty_not_an_error() {
    let mut conn = Connection::new();
    let mut timed = Notifications::new(&conn).timeout_iter(Duration::from_millis(20));
    assert!(matches!(timed.next(&mut conn), Step::Read(ReadStrategy::Timeout(_))));
    assert!(matches!(timed.finish(Ok(None)), Ok(None)));
    // The next pull starts over.
    assert!(matches!(timed.next(&mut conn), Step::Read(ReadStrategy::Timeout(_))));
}

#[test]
fn transport_failure_is_handed_on() {
    let conn = Connection::new();
    let mut iter = Notifications::new(&conn).iter();
    match iter.finish(Err(io::Error::new(io::ErrorKind::ConnectionReset, "reset by peer"))) {
        Err(Error::Io(err)) => {
            assert_eq!(err.kind(), io::ErrorKind::ConnectionReset);
            assert_eq!(err.to_string(), "reset by peer");
        }
        other => panic!("expected the I/O error, got {:?}", other),
    }
    let mut blocking = Notifications::new(&conn).blocking_iter();
    match blocking.finish(Err(io::Error::new(io::ErrorKind::BrokenPipe, "broken pipe"))) {
        Err(Error::Io(err)) => {
            assert_eq!(err.kind(), io::ErrorKind::BrokenPipe);
            assert_eq!(err.to_string(), "broken pipe");
        }
        other => panic!("expected the I/O error, got {:?}", other),
    }
    let mut timed = Notifications::new(&conn).timeout_iter(Duration::from_secs(2));
    match timed.finish(Err(io::Error::new(io::ErrorKind::InvalidData, "bad frame"))) {
        Err(Error::Io(err)) => assert_eq!(err.kind(), io::ErrorKind::InvalidData),
        other => panic!("expected the I/O error, got {:?}", other),
    }
}

#[test]
fn failure_of_a_read_does_not_touch_the_latch() {
    let mut conn = Connection::new();
    let mut iter = Notifications::new(&conn).iter();
    assert!(matches!(iter.next(&mut conn), Step::Read(_)));
    assert!(iter.finish(Err(io::Error::new(io::ErrorKind::Other, "boom"))).is_err());
    // Setting the latch is the decoder's business, not the pull's.
    assert!(!conn.is_desynchronized());
    assert!(matches!(iter.next(&mut conn), Step::Read(ReadStrategy::NonBlocking)));
}

#[test]
fn queued_record_goes_out_before_a_read() {
    let mut conn = Connection::new();
    conn.push_notification(record(1, "queued", ""));
    let mut blocking = Notifications::new(&conn).blocking_iter();
    assert_eq!(taken(blocking.next(&mut conn)), 1);
    match blocking.next(&mut conn) {
        Step::Read(ReadStrategy::Blocking) => match blocking.finish(Ok(message(2, "read", ""))) {
            Ok(Some(n)) => assert_eq!(n.process_id, 2),
            other => panic!("expected the record, got {:?}", other),
        },
        other => panic!("expected a blocking read, got {:?}", other),
    }
}

#[test]
fn size_hint_is_queue_depth_without_upper_bound() {
    let mut conn = Connection::new();
    let iter = Notifications::new(&conn).iter();
    let timed = Notifications::new(&conn).timeout_iter(Duration::from_millis(1));
    assert_eq!(iter.size_hint(&conn), (0, None));
    assert_eq!(timed.size_hint(&conn), (0, None));
    conn.push_notification(record(1, "a", ""));
    conn.push_notification(record(2, "a", ""));
    assert_eq!(iter.size_hint(&conn), (2, None));
    assert_eq!(timed.size_hint(&conn), (2, None));
}

#[test]
fn message_kinds_are_told_apart() {
    assert!(message(1, "a", "b").is_notification());
    assert!(!Message::Other.is_notification());
    assert!(Message::Other.into_notification().is_none());
    let n = message(8, "k", "v").into_notification().unwrap();
    assert_eq!((n.process_id, n.channel.as_str(), n.payload.as_str()), (8, "k", "v"));

    assert!(has_expected_kind(&Ok(None)));
    assert!(has_expected_kind(&Ok(Some(message(1, "a", "b")))));
    assert!(has_expected_kind(&Err(io::Error::new(io::ErrorKind::Other, "x"))));
    assert!(!has_expected_kind(&Ok(Some(Message::Other))));
}

#[test]
fn notification_clone_keeps_the_fields() {
    let n = record(11, "copy", "me");
    let m = n.clone();
    assert_eq!(m.process_id, 11);
    assert_eq!(m.channel, "copy");
    assert_eq!(m.payload, "me");
    assert_eq!(format!("{:?}", n), format!("{:?}", m));
}
