use http_horse::fanout::NotificationFanOut;
use http_horse::reconcile::ChangeNotification;

fn note(seq: u64, text: &[u8]) -> ChangeNotification {
    ChangeNotification { sequence_number: seq, summary: text.to_vec() }
}

#[test]
fn delivery_in_production_order() {
    let mut f = NotificationFanOut::new();
    let a = f.subscribe(8);
    for k in 0..3u64 {
        f.publish(&note(k, b"w"));
    }
    for k in 0..3u64 {
        let n = f.pop_next(a).unwrap();
        assert_eq!(n.sequence_number, k);
    }
    assert!(f.pop_next(a).is_none());
}

#[test]
fn overflow_drops_oldest_for_that_subscriber_only() {
    let mut f = NotificationFanOut::new();
    let slow = f.subscribe(2);
    let fast = f.subscribe(10);
    for k in 0..5u64 {
        f.publish(&note(k, b"w"));
    }
    // The slow subscriber lost the oldest three and keeps the last two.
    assert_eq!(f.pop_next(slow).unwrap().sequence_number, 3);
    assert_eq!(f.pop_next(slow).unwrap().sequence_number, 4);
    assert!(f.pop_next(slow).is_none());
    // The roomy subscriber saw everything.
    for k in 0..5u64 {
        assert_eq!(f.pop_next(fast).unwrap().sequence_number, k);
    }
    assert!(f.pop_next(fast).is_none());
}

#[test]
fn subscriber_ids_are_distinct_and_detachable() {
    let mut f = NotificationFanOut::new();
    let a = f.subscribe(4);
    let b = f.subscribe(4);
    assert_ne!(a, b);
    f.publish(&note(0, b"x"));
    f.unsubscribe(a);
    assert!(f.pop_next(a).is_none());
    assert_eq!(f.pop_next(b).unwrap().sequence_number, 0);
    // Detaching an unknown identity does nothing.
    f.unsubscribe(999);
    assert!(f.pop_next(b).is_none());
}

#[test]
fn late_subscriber_sees_only_later_notifications() {
    let mut f = NotificationFanOut::new();
    let early = f.subscribe(8);
    f.publish(&note(0, b"w"));
    let late = f.subscribe(8);
    f.publish(&note(1, b"w"));
    assert_eq!(f.pop_next(early).unwrap().sequence_number, 0);
    assert_eq!(f.pop_next(early).unwrap().sequence_number, 1);
    assert_eq!(f.pop_next(late).unwrap().sequence_number, 1);
    assert!(f.pop_next(late).is_none());
}
