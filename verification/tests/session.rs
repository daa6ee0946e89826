use derust::types::gateway::session::Session;

#[test]
fn new_session_is_empty() {
    let session = Session::new();
    assert_eq!(session.session_id(), None);
    assert_eq!(session.sequence(), None);
    assert_eq!(session.heartbeat_interval(), None);
    assert!(!session.last_ack_received());
    assert_eq!(session.snapshot_for_resume(), None);
}

#[test]
fn hello_sets_interval_and_expects_no_ack() {
    let mut session = Session::new();
    session.on_hello(41250);
    assert_eq!(session.heartbeat_interval(), Some(41250));
    assert!(session.last_ack_received());
    assert_eq!(session.sequence(), None);
}

#[test]
fn sequence_is_the_maximum_in_order() {
    let mut session = Session::new();
    for n in [1u64, 2, 3, 7, 9] {
        session.on_dispatch(Some(n));
    }
    assert_eq!(session.sequence(), Some(9));
}

#[test]
fn sequence_is_the_maximum_out_of_order() {
    let mut session = Session::new();
    for n in [3u64, 1, 9, 2, 7, 9, 4] {
        session.on_dispatch(Some(n));
    }
    assert_eq!(session.sequence(), Some(9));
}

#[test]
fn frame_without_sequence_changes_nothing() {
    let mut session = Session::new();
    session.on_dispatch(None);
    assert_eq!(session.sequence(), None);
    session.on_dispatch(Some(5));
    session.on_dispatch(None);
    assert_eq!(session.sequence(), Some(5));
}

#[test]
fn duplicate_and_late_frames_do_not_regress() {
    let mut session = Session::new();
    session.on_dispatch(Some(10));
    session.on_dispatch(Some(10));
    assert_eq!(session.sequence(), Some(10));
    session.on_dispatch(Some(4));
    assert_eq!(session.sequence(), Some(10));
    session.on_dispatch(Some(0));
    assert_eq!(session.sequence(), Some(10));
    session.on_dispatch(Some(u64::MAX));
    assert_eq!(session.sequence(), Some(u64::MAX));
}

#[test]
fn snapshot_needs_identifier_and_sequence() {
    let mut only_id = Session::new();
    only_id.on_ready(String::from("abc"));
    assert_eq!(only_id.snapshot_for_resume(), None);

    let mut only_seq = Session::new();
    only_seq.on_dispatch(Some(3));
    assert_eq!(only_seq.snapshot_for_resume(), None);

    let mut both = Session::new();
    both.on_ready(String::from("abc"));
    both.on_dispatch(Some(3));
    assert_eq!(both.snapshot_for_resume(), Some((String::from("abc"), 3)));
    assert_eq!(both.session_id(), Some(&String::from("abc")));
}

#[test]
fn soft_invalidation_keeps_the_session() {
    let mut session = Session::new();
    session.on_hello(1000);
    session.on_ready(String::from("abc"));
    session.on_dispatch(Some(3));
    session.invalidate(false);
    assert_eq!(session.snapshot_for_resume(), Some((String::from("abc"), 3)));
    assert_eq!(session.heartbeat_interval(), None);
    assert!(!session.last_ack_received());
}

#[test]
fn hard_invalidation_clears_the_session() {
    let mut session = Session::new();
    session.on_hello(1000);
    session.on_ready(String::from("abc"));
    session.on_dispatch(Some(3));
    session.invalidate(true);
    assert_eq!(session.snapshot_for_resume(), None);
    assert_eq!(session.session_id(), None);
    assert_eq!(session.sequence(), None);
    assert_eq!(session.heartbeat_interval(), None);
}

#[test]
fn heartbeat_flag_follows_sent_and_ack() {
    let mut session = Session::new();
    session.on_hello(1000);
    session.on_heartbeat_sent();
    assert!(!session.last_ack_received());
    session.on_heartbeat_ack();
    assert!(session.last_ack_received());
}
