use posture_core::client::{
    connection_status_report, notification_for, startup_notification, ClientAction, ClientState,
    StreamEvent,
};
use posture_core::postures::Posture;

fn frame_line(shoulder_visibility: &str) -> String {
    // Sixteen fields: left ear, right ear, left shoulder, right shoulder,
    // each as x, y, z, visibility.
    [
        "0", "0", "0", "0.95", "0", "0", "0", "0.95", "0", "0", "0", shoulder_visibility, "0",
        "0", "0", "0.95",
    ]
    .join("|")
}

#[test]
fn refused_peer_reports_every_attempt_with_fixed_delay() {
    let mut state = ClientState::new();
    assert!(!state.is_connected());
    for _attempt in 0..3 {
        let actions =
            state.on_event(StreamEvent::ConnectFailed("connection refused".to_string()));
        assert_eq!(actions.len(), 2);
        match &actions[0] {
            ClientAction::EmitConnectionStatus(status) => {
                assert!(!status.connected);
                assert_eq!(status.message, "Connection failed: connection refused. Retrying...");
            }
            other => panic!("expected a status action, got {:?}", other),
        }
        match &actions[1] {
            ClientAction::RetryDelay { seconds } => assert_eq!(*seconds, 3),
            other => panic!("expected the retry delay, got {:?}", other),
        }
        assert!(!state.is_connected());
    }
}

#[test]
fn successful_connection_is_announced() {
    let mut state = ClientState::new();
    let actions = state.on_event(StreamEvent::ConnectOk);
    assert!(state.is_connected());
    assert_eq!(actions.len(), 1);
    match &actions[0] {
        ClientAction::EmitConnectionStatus(status) => {
            assert!(status.connected);
            assert_eq!(status.message, "Connected to posture server");
        }
        other => panic!("expected a status action, got {:?}", other),
    }
}

#[test]
fn stream_end_and_read_failure_disconnect_and_retry() {
    let mut state = ClientState::new();
    state.on_event(StreamEvent::ConnectOk);

    let actions = state.on_event(StreamEvent::StreamEnded);
    assert!(!state.is_connected());
    match &actions[0] {
        ClientAction::EmitConnectionStatus(status) => {
            assert!(!status.connected);
            assert_eq!(status.message, "Disconnected from server. Retrying...");
        }
        other => panic!("expected a status action, got {:?}", other),
    }
    assert!(matches!(actions[1], ClientAction::RetryDelay { seconds: 3 }));

    state.on_event(StreamEvent::ConnectOk);
    let actions = state.on_event(StreamEvent::ReadFailed("broken pipe".to_string()));
    assert!(!state.is_connected());
    match &actions[0] {
        ClientAction::EmitConnectionStatus(status) => {
            assert!(!status.connected);
            assert_eq!(status.message, "Connection error: broken pipe. Retrying...");
        }
        other => panic!("expected a status action, got {:?}", other),
    }
}

#[test]
fn straight_frame_classifies_and_emits_update() {
    let mut state = ClientState::new();
    state.on_event(StreamEvent::ConnectOk);
    let line = format!("{}\r\n", frame_line("0.95"));
    let actions = state.on_event(StreamEvent::LineRead(line));

    // Unknown -> Straight is a change: record, notify, refresh, emit, update.
    assert_eq!(actions.len(), 5);
    match &actions[0] {
        ClientAction::RecordChange { new_posture, previous_posture } => {
            assert_eq!(*new_posture, Posture::Straight);
            assert_eq!(*previous_posture, Posture::Unknown);
        }
        other => panic!("expected the transition record, got {:?}", other),
    }
    match &actions[1] {
        ClientAction::ShowNotification(req) => {
            assert_eq!(req.title, "Well done!");
            assert_eq!(req.body, "Back to sitting straight, good job!");
            assert_eq!(req.timeout_secs, 3);
        }
        other => panic!("expected the notification, got {:?}", other),
    }
    assert!(matches!(actions[2], ClientAction::RefreshSessionLogs));
    match &actions[3] {
        ClientAction::EmitNotification(ev) => {
            assert_eq!(ev.posture, "STRAIGHT");
            assert_eq!(ev.message, "Straight");
            assert!(ev.is_good_posture);
        }
        other => panic!("expected the notification event, got {:?}", other),
    }
    match &actions[4] {
        ClientAction::EmitPostureUpdate(update) => {
            assert_eq!(update.posture, Posture::Straight);
            assert_eq!(update.message, "Straight");
            assert!(update.metrics.is_some());
        }
        other => panic!("expected the posture update, got {:?}", other),
    }
}

#[test]
fn unchanged_posture_only_emits_the_update() {
    let mut state = ClientState::new();
    state.on_event(StreamEvent::ConnectOk);
    state.on_event(StreamEvent::LineRead(format!("{}\n", frame_line("0.95"))));
    let actions = state.on_event(StreamEvent::LineRead(format!("{}\n", frame_line("0.95"))));
    assert_eq!(actions.len(), 1);
    assert!(matches!(actions[0], ClientAction::EmitPostureUpdate(_)));
}

#[test]
fn hidden_shoulder_classifies_and_notifies_bad_posture() {
    let mut state = ClientState::new();
    state.on_event(StreamEvent::ConnectOk);
    // Same frame as the straight scenario, but the left shoulder's
    // visibility drops to 0.5.
    let actions = state.on_event(StreamEvent::LineRead(format!("{}\n", frame_line("0.5"))));
    assert_eq!(actions.len(), 5);
    match &actions[0] {
        ClientAction::RecordChange { new_posture, .. } => {
            assert_eq!(*new_posture, Posture::ShouldersNotVisible);
        }
        other => panic!("expected the transition record, got {:?}", other),
    }
    match &actions[1] {
        ClientAction::ShowNotification(req) => {
            assert_eq!(req.title, "Bad posture!");
            assert_eq!(
                req.body,
                "You should correct your posture. Current posture detected: SHOULDERS_NOT_VISIBLE"
            );
            assert_eq!(req.timeout_secs, 0);
        }
        other => panic!("expected the notification, got {:?}", other),
    }
    match &actions[3] {
        ClientAction::EmitNotification(ev) => {
            assert_eq!(ev.posture, "SHOULDERS_NOT_VISIBLE");
            assert!(!ev.is_good_posture);
        }
        other => panic!("expected the notification event, got {:?}", other),
    }
}

#[test]
fn malformed_line_is_dropped_in_silence() {
    let mut state = ClientState::new();
    state.on_event(StreamEvent::ConnectOk);
    let actions = state.on_event(StreamEvent::LineRead("garbage\n".to_string()));
    assert!(actions.is_empty());
    assert!(state.is_connected());
}

#[test]
fn notification_contents() {
    let good = notification_for(&Posture::Straight);
    assert_eq!(good.title, "Well done!");
    assert_eq!(good.timeout_secs, 3);

    let bad = notification_for(&Posture::SlouchingBack);
    assert_eq!(bad.title, "Bad posture!");
    assert_eq!(
        bad.body,
        "You should correct your posture. Current posture detected: SLOUCHING_BACK"
    );
    assert_eq!(bad.timeout_secs, 0);

    let startup = startup_notification();
    assert_eq!(startup.title, "Arrow Posture Monitor");
    assert_eq!(startup.body, "Posture monitoring started");
    assert_eq!(startup.timeout_secs, 2);
}

#[test]
fn status_report_messages() {
    let up = connection_status_report(true);
    assert!(up.connected);
    assert_eq!(up.message, "Connected to posture server");
    let down = connection_status_report(false);
    assert!(!down.connected);
    assert_eq!(down.message, "Not connected to server");
}
