use http_horse::reconcile::{
    Outcome, Phase, RawEventKind, RawFsEvent, ReconciliationSession, INITIAL_TIMEOUT_MS,
    TIMEOUT_CAP_MS,
};

fn ev(path: &[u8], kind: RawEventKind, at: u64) -> RawFsEvent {
    RawFsEvent { path: path.to_vec(), kind, observed_at: at }
}

#[test]
fn fast_forward_then_one_notification() {
    // [unrelated-write, marker-create, relevant-write]: the first is
    // discarded, the second completes the fast-forward, the third alone is
    // notified.
    let mut s = ReconciliationSession::new(b"/p/.m1".to_vec(), 0);
    assert_eq!(s.phase, Phase::AwaitingMarker);

    let r1 = s.handle_event(&ev(b"/p/other.txt", RawEventKind::Write, 1));
    assert!(matches!(r1, Outcome::Discarded));
    assert_eq!(s.phase, Phase::AwaitingMarker);

    let r2 = s.handle_event(&ev(b"/p/.m1", RawEventKind::Create, 2));
    assert!(matches!(r2, Outcome::FastForwarded));
    assert_eq!(s.phase, Phase::SteadyState);
    assert_eq!(s.marker_path, None);

    let r3 = s.handle_event(&ev(b"/p/index.html", RawEventKind::Write, 3));
    match r3 {
        Outcome::Notified(n) => {
            assert_eq!(n.sequence_number, 0);
            assert_eq!(n.summary, b"write /p/index.html".to_vec());
        }
        _ => panic!("expected a notification"),
    }
    assert_eq!(s.next_sequence, 1);
}

#[test]
fn marker_path_must_match_and_kind_must_be_create() {
    let mut s = ReconciliationSession::new(b"/p/.m1".to_vec(), 0);
    assert!(matches!(
        s.handle_event(&ev(b"/p/.m2", RawEventKind::Create, 1)),
        Outcome::Discarded
    ));
    assert!(matches!(
        s.handle_event(&ev(b"/p/.m1", RawEventKind::Remove, 2)),
        Outcome::Discarded
    ));
    assert_eq!(s.phase, Phase::AwaitingMarker);
}

#[test]
fn move_in_steady_state_forces_rescan_cycle() {
    let mut s = ReconciliationSession::new(b"/p/.m1".to_vec(), 0);
    s.handle_event(&ev(b"/p/.m1", RawEventKind::Create, 1));
    assert_eq!(s.phase, Phase::SteadyState);

    let r = s.handle_event(&ev(b"/p/moved", RawEventKind::Move, 2));
    assert!(matches!(r, Outcome::RescanNeeded));
    assert_eq!(s.phase, Phase::RescanningForMove);
    assert_eq!(s.marker_path, None);
    assert_eq!(s.timeout, INITIAL_TIMEOUT_MS);
    assert_eq!(s.retry_count, 0);

    s.marker_created(b"/p/.m2".to_vec(), 3);
    assert_eq!(s.marker_path, Some(b"/p/.m2".to_vec()));

    // Noise during the rescan window is discarded.
    assert!(matches!(
        s.handle_event(&ev(b"/p/noise", RawEventKind::Write, 4)),
        Outcome::Discarded
    ));
    // The new marker completes the cycle.
    assert!(matches!(
        s.handle_event(&ev(b"/p/.m2", RawEventKind::Create, 5)),
        Outcome::FastForwarded
    ));
    assert_eq!(s.phase, Phase::SteadyState);
}

#[test]
fn backoff_doubles_exactly_and_caps() {
    let mut s = ReconciliationSession::new(b"/p/.m1".to_vec(), 0);
    assert_eq!(s.timeout, 30_000);
    let expected = [60_000u64, 120_000, 240_000, 480_000, 600_000, 600_000, 600_000];
    for (k, want) in expected.iter().enumerate() {
        s.handle_timeout(b"/p/.mx".to_vec(), (k as u64) + 1);
        assert_eq!(s.timeout, *want);
        assert_eq!(s.retry_count, (k as u64) + 1);
        assert!(s.timeout <= TIMEOUT_CAP_MS);
    }
    assert_eq!(s.phase, Phase::AwaitingMarker);
}

#[test]
fn notifications_are_numbered_in_production_order() {
    let mut s = ReconciliationSession::new(b"/p/.m1".to_vec(), 0);
    s.handle_event(&ev(b"/p/.m1", RawEventKind::Create, 1));
    let kinds = [
        RawEventKind::Write,
        RawEventKind::Create,
        RawEventKind::Remove,
        RawEventKind::Other,
    ];
    for (k, kind) in kinds.iter().enumerate() {
        match s.handle_event(&ev(b"/p/f", *kind, 10 + k as u64)) {
            Outcome::Notified(n) => assert_eq!(n.sequence_number, k as u64),
            _ => panic!("expected a notification"),
        }
    }
}

#[test]
fn summaries_name_the_kind_and_path() {
    let mut s = ReconciliationSession::new(b"/p/.m1".to_vec(), 0);
    s.handle_event(&ev(b"/p/.m1", RawEventKind::Create, 1));
    match s.handle_event(&ev(b"/p/a b", RawEventKind::Remove, 2)) {
        Outcome::Notified(n) => assert_eq!(n.summary, b"remove /p/a b".to_vec()),
        _ => panic!("expected a notification"),
    }
}

#[test]
fn remaining_wait_counts_down() {
    let s = ReconciliationSession::new(b"/p/.m".to_vec(), 100);
    assert_eq!(s.remaining_ms(100), INITIAL_TIMEOUT_MS);
    assert_eq!(s.remaining_ms(10_100), 20_000);
    assert_eq!(s.remaining_ms(30_100), 0);
    assert_eq!(s.remaining_ms(99), INITIAL_TIMEOUT_MS);
    assert_eq!(s.remaining_ms(1_000_000), 0);
}

#[test]
fn marker_echoes_in_steady_state_are_discarded() {
    // After the fast-forward the marker file is deleted; its straggling
    // Remove event, or a duplicated Create from the never-deduplicated
    // stream, must never become a change notification.
    let mut s = ReconciliationSession::new(b"/p/.m1".to_vec(), 0);
    s.handle_event(&ev(b"/p/.m1", RawEventKind::Create, 1));
    assert_eq!(s.phase, Phase::SteadyState);
    assert_eq!(s.last_marker_path, Some(b"/p/.m1".to_vec()));

    assert!(matches!(
        s.handle_event(&ev(b"/p/.m1", RawEventKind::Remove, 2)),
        Outcome::Discarded
    ));
    assert!(matches!(
        s.handle_event(&ev(b"/p/.m1", RawEventKind::Create, 3)),
        Outcome::Discarded
    ));
    // Sequence numbering is untouched by the echoes: the next real change
    // still carries number zero.
    match s.handle_event(&ev(b"/p/real.txt", RawEventKind::Write, 4)) {
        Outcome::Notified(n) => assert_eq!(n.sequence_number, 0),
        _ => panic!("expected a notification"),
    }
}

#[test]
fn each_fast_forward_updates_the_remembered_marker() {
    let mut s = ReconciliationSession::new(b"/p/.m1".to_vec(), 0);
    s.handle_event(&ev(b"/p/.m1", RawEventKind::Create, 1));
    s.handle_event(&ev(b"/p/moved", RawEventKind::Move, 2));
    s.marker_created(b"/p/.m2".to_vec(), 3);
    s.handle_event(&ev(b"/p/.m2", RawEventKind::Create, 4));
    assert_eq!(s.phase, Phase::SteadyState);
    assert_eq!(s.last_marker_path, Some(b"/p/.m2".to_vec()));

    // The new marker's echo is discarded; the old marker's path is an
    // ordinary path again.
    assert!(matches!(
        s.handle_event(&ev(b"/p/.m2", RawEventKind::Remove, 5)),
        Outcome::Discarded
    ));
    assert!(matches!(
        s.handle_event(&ev(b"/p/.m1", RawEventKind::Write, 6)),
        Outcome::Notified(_)
    ));
}
