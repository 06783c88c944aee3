use posture_core::postures::Posture;
use posture_core::store::{EventKind, SessionStore};
use posture_core::timestamp::{timestamp_difference, Timestamp};

#[test]
fn test_database_operations() {
    let mut store = SessionStore::new();

    let start_id = store.log_session_start(0);
    assert_eq!(start_id, 1);

    let change_one = store.log_posture_change(10, Posture::from("STRAIGHT"), Posture::from("SLOUCHING_BACK"));
    let change_two = store.log_posture_change(20, Posture::from("SLOUCHING_BACK"), Posture::from("STRAIGHT"));
    assert_eq!(change_one, 2);
    assert_eq!(change_two, 3);

    let end_id = store.log_session_end(30, Posture::from("STRAIGHT"));
    assert_eq!(end_id, 4);

    assert_eq!(store.event_count(), 4);
    let start = store.event_at(0);
    assert!(matches!(start.kind, EventKind::Start));
    assert_eq!(start.posture, Posture::Unknown);
    assert!(start.previous_posture.is_none());
    let stop = store.event_at(3);
    assert!(matches!(stop.kind, EventKind::Stop));
    assert_eq!(stop.posture, Posture::Straight);
    assert_eq!(stop.previous_posture, Some(Posture::Straight));
}

#[test]
fn empty_store_has_no_session_log() {
    let store = SessionStore::new();
    assert!(store.get_session_logs().is_none());
}

#[test]
fn log_without_start_event_is_empty() {
    let mut store = SessionStore::new();
    store.log_posture_change(10, Posture::Straight, Posture::Unknown);
    assert!(store.get_session_logs().is_none());
}

#[test]
fn held_posture_appears_with_its_duration() {
    // Straight -> SlouchingBack -> Straight, the slouch held ten seconds;
    // the two quick transitions before it fall under the noise floor, so
    // the summary holds exactly the one slouching entry.
    let mut store = SessionStore::new();
    store.log_session_start(0);
    store.log_posture_change(2, Posture::Straight, Posture::Unknown);
    store.log_posture_change(4, Posture::SlouchingBack, Posture::Straight);
    store.log_posture_change(14, Posture::Straight, Posture::SlouchingBack);
    let logs = store.get_session_logs().expect("one pair survives");
    assert_eq!(logs.len(), 1);
    assert_eq!(logs[0].posture, "SLOUCHING_BACK");
    assert_eq!(logs[0].duration_secs, 10);
}

#[test]
fn noise_floor_is_exact() {
    // Elapsed time at the floor (three seconds) is discarded; one second
    // above it is reported with the exact duration.
    let mut store = SessionStore::new();
    store.log_session_start(0);
    store.log_posture_change(3, Posture::Straight, Posture::Unknown);
    assert!(store.get_session_logs().is_none());

    store.log_posture_change(7, Posture::SlouchingBack, Posture::Straight);
    let logs = store.get_session_logs().expect("the second pair survives");
    assert_eq!(logs.len(), 1);
    assert_eq!(logs[0].posture, "STRAIGHT");
    assert_eq!(logs[0].duration_secs, 4);
}

#[test]
fn summary_is_newest_first() {
    let mut store = SessionStore::new();
    store.log_session_start(0);
    store.log_posture_change(10, Posture::Straight, Posture::Unknown);
    store.log_posture_change(25, Posture::LeaningIn, Posture::Straight);
    store.log_posture_change(45, Posture::Straight, Posture::LeaningIn);
    let logs = store.get_session_logs().expect("three pairs survive");
    assert_eq!(logs.len(), 3);
    assert_eq!(logs[0].posture, "LEANING_IN");
    assert_eq!(logs[0].duration_secs, 20);
    assert_eq!(logs[1].posture, "STRAIGHT");
    assert_eq!(logs[1].duration_secs, 15);
    assert_eq!(logs[2].posture, "UNKNOWN");
    assert_eq!(logs[2].duration_secs, 10);
}

#[test]
fn second_start_scopes_out_the_first_session() {
    // Two Start events make two rows, but the summary always scopes to the
    // most recent one: the first session's held posture no longer appears.
    let mut store = SessionStore::new();
    store.log_session_start(0);
    store.log_posture_change(10, Posture::Straight, Posture::Unknown);
    assert!(store.get_session_logs().is_some());

    store.log_session_start(20);
    assert_eq!(store.event_count(), 3);
    assert!(store.get_session_logs().is_none());

    // New transitions belong to the new session only.
    store.log_posture_change(40, Posture::SlouchingBack, Posture::Unknown);
    let logs = store.get_session_logs().expect("the new pair survives");
    assert_eq!(logs.len(), 1);
    assert_eq!(logs[0].posture, "UNKNOWN");
    assert_eq!(logs[0].duration_secs, 20);
}

#[test]
fn stop_event_pairs_like_any_other() {
    let mut store = SessionStore::new();
    store.log_session_start(0);
    store.log_posture_change(5, Posture::Straight, Posture::Unknown);
    store.log_session_end(30, Posture::Straight);
    let logs = store.get_session_logs().expect("two pairs survive");
    assert_eq!(logs.len(), 2);
    assert_eq!(logs[0].posture, "STRAIGHT");
    assert_eq!(logs[0].duration_secs, 25);
    assert_eq!(logs[1].posture, "UNKNOWN");
    assert_eq!(logs[1].duration_secs, 5);
}

#[test]
fn timestamp_to_seconds_formula() {
    let t = Timestamp::new(1, 2, 3, 4, 5, 6);
    assert_eq!(t.to_seconds(), 36_993_906);
    let zero = Timestamp::new(0, 0, 0, 0, 0, 0);
    assert_eq!(zero.to_seconds(), 0);
}

#[test]
fn timestamp_parses_its_textual_shape() {
    let t = Timestamp::from_text("2024-01-15 10:30:05").expect("well-shaped text parses");
    assert_eq!(t.year, 2024);
    assert_eq!(t.month, 1);
    assert_eq!(t.day, 15);
    assert_eq!(t.hour, 10);
    assert_eq!(t.minutes, 30);
    assert_eq!(t.seconds, 5);

    assert!(Timestamp::from_text("").is_none());
    assert!(Timestamp::from_text("2024-01-15").is_none());
    assert!(Timestamp::from_text("2024-01-15 10:30").is_none());
    assert!(Timestamp::from_text("2024-01-15 10:30:xx").is_none());
    assert!(Timestamp::from_text("2024-01-15 10:30:128").is_none());
}

#[test]
fn timestamp_difference_subtracts_second_counts() {
    let earlier = Timestamp::new(2024, 1, 1, 0, 0, 0);
    let later = Timestamp::new(2024, 1, 1, 0, 1, 30);
    assert_eq!(timestamp_difference(later, earlier), 90);
}
