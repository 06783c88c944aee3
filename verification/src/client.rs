//! The decision side of the stream client: a state machine that turns each
//! transport event into the exact list of actions the surrounding loop must
//! carry out.
//!
//! The loop itself — connecting, reading lines, sleeping, delivering
//! notifications — performs I/O and lives outside the library.  It owns one
//! `ClientState`, feeds every transport event through [`ClientState::on_event`],
//! and executes the returned actions in order.

use vstd::prelude::*;
use vstd::string::StrSliceExecFns;
use vstd::string::StringExecFns;
use crate::classify::{classify, determine_posture};
use crate::events::{ConnectionStatus, NotificationEvent, NotificationRequest, PostureUpdate};
use crate::frame::{parse_frame, parse_frame_spec, PostureMetrics};
use crate::postures::{code_of, message_of, Posture};

verus! {

/// Seconds waited between reconnection attempts: a fixed interval, no
/// exponential growth.
pub const RETRY_INTERVAL_SECONDS: u64 = 3;

/// Timeout of the praise notification for a straight posture.
pub const GOOD_POSTURE_NOTIFICATION_SECONDS: u64 = 3;

/// The mutable state the ingestion loop owns: whether the peer is connected
/// and the most recently classified posture.
#[derive(Debug, Clone, Copy, PartialEq, Eq, Structural)]
pub struct ClientState {
    pub connected: bool,
    pub current_posture: Posture,
}

/// What the transport reported to the loop.
#[derive(Debug, Clone, PartialEq)]
pub enum StreamEvent {
    /// A connection attempt succeeded.
    ConnectOk,
    /// A connection attempt failed, with the error's description.
    ConnectFailed(String),
    /// One line arrived, its terminator still attached.
    LineRead(String),
    /// The peer closed the stream.
    StreamEnded,
    /// A read failed, with the error's description.
    ReadFailed(String),
}

/// What the loop must carry out, in the order given.
#[derive(Debug, Clone, PartialEq)]
pub enum ClientAction {
    /// Publish the connection status.
    EmitConnectionStatus(ConnectionStatus),
    /// Record a posture transition in the session store; a failure to
    /// record is reported, never fatal.
    RecordChange { new_posture: Posture, previous_posture: Posture },
    /// Show a desktop notification.
    ShowNotification(NotificationRequest),
    /// Derive a fresh session summary from the store and publish it.
    RefreshSessionLogs,
    /// Publish a notification event.
    EmitNotification(NotificationEvent),
    /// Publish the freshly classified frame.
    EmitPostureUpdate(PostureUpdate),
    /// Wait this many seconds before the next connection attempt.
    RetryDelay { seconds: u64 },
}

/// The status message after a failed connection attempt.
pub open spec fn connect_failed_message(e: Seq<char>) -> Seq<char> {
    "Connection failed: "@ + e + ". Retrying..."@
}

/// The status message after a failed read.
pub open spec fn read_failed_message(e: Seq<char>) -> Seq<char> {
    "Connection error: "@ + e + ". Retrying..."@
}

/// The line with one trailing newline removed, and a carriage return before
/// that newline removed with it.
pub open spec fn strip_line_ending_spec(s: Seq<char>) -> Seq<char> {
    if s.len() > 0 && s.last() == '\n' {
        let t = s.drop_last();
        if t.len() > 0 && t.last() == '\r' {
            t.drop_last()
        } else {
            t
        }
    } else {
        s
    }
}

/// A connection status carrying exactly this state and message.
pub open spec fn is_status(s: ConnectionStatus, connected: bool, message: Seq<char>) -> bool {
    s.connected == connected && s.message@ == message
}

/// The notification owed for a newly entered posture: short-lived praise
/// for a straight posture, a persistent warning naming the posture's code
/// otherwise.
pub open spec fn is_notification_for(req: NotificationRequest, p: Posture) -> bool {
    if p == Posture::Straight {
        req.title@ == "Well done!"@ && req.body@ == "Back to sitting straight, good job!"@
            && req.timeout_secs == GOOD_POSTURE_NOTIFICATION_SECONDS
    } else {
        req.title@ == "Bad posture!"@ && req.body@ == "You should correct your posture. Current posture detected: "@
            + code_of(p) && req.timeout_secs == 0
    }
}

/// The update payload a parsed frame produces.
pub open spec fn is_posture_update_for(u: PostureUpdate, m: PostureMetrics) -> bool {
    u.posture == classify(m) && u.message@ == message_of(classify(m)) && u.metrics == Some(m)
}

/// The notification event a posture change produces; the posture is good
/// exactly when it is `Straight`.
pub open spec fn is_notification_event_for(ev: NotificationEvent, p: Posture) -> bool {
    ev.posture@ == code_of(p) && ev.message@ == message_of(p) && ev.is_good_posture == (p
        == Posture::Straight)
}

/// Removes one trailing newline, and a carriage return standing before it.
pub fn strip_line_ending(line: &str) -> (r: String)
    ensures
        r@ == strip_line_ending_spec(line@),
{
    let len = line.unicode_len();
    if len > 0 && line.get_char(len - 1) == '\n' {
        if len > 1 && line.get_char(len - 2) == '\r' {
            let s = line.substring_char(0, len - 2);
            proof {
                assert(s@ =~= line@.drop_last().drop_last());
            }
            s.to_owned()
        } else {
            let s = line.substring_char(0, len - 1);
            proof {
                assert(s@ =~= line@.drop_last());
            }
            s.to_owned()
        }
    } else {
        line.to_owned()
    }
}

/// Parses one already-stripped line into the update it denotes: the frame,
/// its classification, and the matching message.  A line that does not
/// split into sixteen fields yields nothing.
pub fn parse_metrics(metrics_str: &str) -> (r: Option<PostureUpdate>)
    ensures
        parse_frame_spec(metrics_str@) is None ==> r is None,
        parse_frame_spec(metrics_str@) matches Some(m) ==> r matches Some(u)
            && is_posture_update_for(u, m),
{
    match parse_frame(metrics_str) {
        None => None,
        Some(m) => {
            let posture = determine_posture(&m);
            let message = posture.get_posture_message();
            Some(PostureUpdate { posture, message, metrics: Some(m) })
        },
    }
}

/// The notification shown for a newly entered posture.
pub fn notification_for(posture: &Posture) -> (r: NotificationRequest)
    ensures
        is_notification_for(r, *posture),
{
    match posture {
        Posture::Straight => NotificationRequest {
            title: "Well done!".to_owned(),
            body: "Back to sitting straight, good job!".to_owned(),
            timeout_secs: GOOD_POSTURE_NOTIFICATION_SECONDS,
        },
        _ => {
            let code = posture.get_posture_value();
            let mut body = "You should correct your posture. Current posture detected: ".to_owned();
            body.append(code.as_str());
            NotificationRequest { title: "Bad posture!".to_owned(), body, timeout_secs: 0 }
        },
    }
}

/// The short-lived notification shown once when monitoring begins.
pub fn startup_notification() -> (r: NotificationRequest)
    ensures
        r.title@ == "Arrow Posture Monitor"@,
        r.body@ == "Posture monitoring started"@,
        r.timeout_secs == 2,
{
    NotificationRequest {
        title: "Arrow Posture Monitor".to_owned(),
        body: "Posture monitoring started".to_owned(),
        timeout_secs: 2,
    }
}

/// The status answered to a connection-state query.
pub fn connection_status_report(connected: bool) -> (r: ConnectionStatus)
    ensures
        r.connected == connected,
        connected ==> r.message@ == "Connected to posture server"@,
        !connected ==> r.message@ == "Not connected to server"@,
{
    if connected {
        ConnectionStatus { connected: true, message: "Connected to posture server".to_owned() }
    } else {
        ConnectionStatus { connected: false, message: "Not connected to server".to_owned() }
    }
}

impl ClientState {
    /// The state before the first connection attempt: disconnected, posture
    /// unknown.
    pub fn new() -> (s: ClientState)
        ensures
            s.connected == false,
            s.current_posture == Posture::Unknown,
    {
        ClientState { connected: false, current_posture: Posture::Unknown }
    }

    /// Whether the loop currently holds a connection.
    pub fn is_connected(&self) -> (r: bool)
        ensures
            r == self.connected,
    {
        self.connected
    }

    /// Feeds one transport event through the decision procedure and returns
    /// the actions the loop must carry out, in order.
    ///
    /// A successful connection turns the state connected and publishes it.
    /// Every failed attempt, stream end, or read failure turns the state
    /// disconnected, publishes a `connected: false` status, and asks for
    /// the fixed retry delay — so a peer that refuses every attempt draws
    /// one such status per attempt, evenly spaced, indefinitely.  A line is
    /// stripped of its terminator and parsed; a malformed line is dropped
    /// in silence, a parsed frame is classified and published, and a
    /// changed classification additionally records the transition, shows a
    /// notification, refreshes the session summary, and publishes the
    /// notification event.
    pub fn on_event(&mut self, event: StreamEvent) -> (actions: Vec<ClientAction>)
        ensures
            event == StreamEvent::ConnectOk ==> {
                &&& final(self).connected == true
                &&& final(self).current_posture == old(self).current_posture
                &&& actions@.len() == 1
                &&& (actions@[0] matches ClientAction::EmitConnectionStatus(s) && is_status(
                    s,
                    true,
                    "Connected to posture server"@,
                ))
            },
            event matches StreamEvent::ConnectFailed(e) ==> {
                &&& final(self).connected == false
                &&& final(self).current_posture == old(self).current_posture
                &&& actions@.len() == 2
                &&& (actions@[0] matches ClientAction::EmitConnectionStatus(s) && is_status(
                    s,
                    false,
                    connect_failed_message(e@),
                ))
                &&& (actions@[1] matches ClientAction::RetryDelay { seconds } && seconds
                    == RETRY_INTERVAL_SECONDS)
            },
            event == StreamEvent::StreamEnded ==> {
                &&& final(self).connected == false
                &&& final(self).current_posture == old(self).current_posture
                &&& actions@.len() == 2
                &&& (actions@[0] matches ClientAction::EmitConnectionStatus(s) && is_status(
                    s,
                    false,
                    "Disconnected from server. Retrying..."@,
                ))
                &&& (actions@[1] matches ClientAction::RetryDelay { seconds } && seconds
                    == RETRY_INTERVAL_SECONDS)
            },
            event matches StreamEvent::ReadFailed(e) ==> {
                &&& final(self).connected == false
                &&& final(self).current_posture == old(self).current_posture
                &&& actions@.len() == 2
                &&& (actions@[0] matches ClientAction::EmitConnectionStatus(s) && is_status(
                    s,
                    false,
                    read_failed_message(e@),
                ))
                &&& (actions@[1] matches ClientAction::RetryDelay { seconds } && seconds
                    == RETRY_INTERVAL_SECONDS)
            },
            event matches StreamEvent::LineRead(line) ==> {
                &&& final(self).connected == old(self).connected
                &&& (parse_frame_spec(strip_line_ending_spec(line@)) is None ==> {
                    &&& final(self).current_posture == old(self).current_posture
                    &&& actions@.len() == 0
                })
                &&& (parse_frame_spec(strip_line_ending_spec(line@)) matches Some(m) ==> {
                    &&& final(self).current_posture == classify(m)
                    &&& (classify(m) == old(self).current_posture ==> {
                        &&& actions@.len() == 1
                        &&& (actions@[0] matches ClientAction::EmitPostureUpdate(u)
                            && is_posture_update_for(u, m))
                    })
                    &&& (classify(m) != old(self).current_posture ==> {
                        &&& actions@.len() == 5
                        &&& (actions@[0] matches ClientAction::RecordChange {
                            new_posture,
                            previous_posture,
                        } && new_posture == classify(m) && previous_posture == old(
                            self,
                        ).current_posture)
                        &&& (actions@[1] matches ClientAction::ShowNotification(req)
                            && is_notification_for(req, classify(m)))
                        &&& actions@[2] == ClientAction::RefreshSessionLogs
                        &&& (actions@[3] matches ClientAction::EmitNotification(ev)
                            && is_notification_event_for(ev, classify(m)))
                        &&& (actions@[4] matches ClientAction::EmitPostureUpdate(u)
                            && is_posture_update_for(u, m))
                    })
                })
            },
    {
        match event {
            StreamEvent::ConnectOk => {
                self.connected = true;
                let mut actions: Vec<ClientAction> = Vec::new();
                actions.push(
                    ClientAction::EmitConnectionStatus(
                        ConnectionStatus {
                            connected: true,
                            message: "Connected to posture server".to_owned(),
                        },
                    ),
                );
                actions
            },
            StreamEvent::ConnectFailed(e) => {
                self.connected = false;
                let mut message = "Connection failed: ".to_owned();
                message.append(e.as_str());
                message.append(". Retrying...");
                let mut actions: Vec<ClientAction> = Vec::new();
                actions.push(
                    ClientAction::EmitConnectionStatus(
                        ConnectionStatus { connected: false, message },
                    ),
                );
                actions.push(ClientAction::RetryDelay { seconds: RETRY_INTERVAL_SECONDS });
                actions
            },
            StreamEvent::StreamEnded => {
                self.connected = false;
                let mut actions: Vec<ClientAction> = Vec::new();
                actions.push(
                    ClientAction::EmitConnectionStatus(
                        ConnectionStatus {
                            connected: false,
                            message: "Disconnected from server. Retrying...".to_owned(),
                        },
                    ),
                );
                actions.push(ClientAction::RetryDelay { seconds: RETRY_INTERVAL_SECONDS });
                actions
            },
            StreamEvent::ReadFailed(e) => {
                self.connected = false;
                let mut message = "Connection error: ".to_owned();
                message.append(e.as_str());
                message.append(". Retrying...");
                let mut actions: Vec<ClientAction> = Vec::new();
                actions.push(
                    ClientAction::EmitConnectionStatus(
                        ConnectionStatus { connected: false, message },
                    ),
                );
                actions.push(ClientAction::RetryDelay { seconds: RETRY_INTERVAL_SECONDS });
                actions
            },
            StreamEvent::LineRead(line) => {
                let stripped = strip_line_ending(line.as_str());
                match parse_metrics(stripped.as_str()) {
                    None => Vec::new(),
                    Some(update) => {
                        let new_posture = update.posture;
                        let previous = self.current_posture;
                        self.current_posture = new_posture;
                        let mut actions: Vec<ClientAction> = Vec::new();
                        if new_posture != previous {
                            actions.push(
                                ClientAction::RecordChange {
                                    new_posture,
                                    previous_posture: previous,
                                },
                            );
                            actions.push(
                                ClientAction::ShowNotification(notification_for(&new_posture)),
                            );
                            actions.push(ClientAction::RefreshSessionLogs);
                            let code = new_posture.get_posture_value();
                            let message = new_posture.get_posture_message();
                            actions.push(
                                ClientAction::EmitNotification(
                                    NotificationEvent {
                                        posture: code,
                                        message,
                                        is_good_posture: new_posture == Posture::Straight,
                                    },
                                ),
                            );
                        }
                        actions.push(ClientAction::EmitPostureUpdate(update));
                        actions
                    },
                }
            },
        }
    }
}

} // verus!
