//! Payloads of the outward-facing events the stream client emits and of the
//! desktop notifications it requests.

use vstd::prelude::*;
use crate::frame::PostureMetrics;
use crate::postures::Posture;
use crate::store::PostureLog;

verus! {

/// The connection state reported outward.
#[derive(Debug, Clone, PartialEq)]
pub struct ConnectionStatus {
    pub connected: bool,
    pub message: String,
}

/// The payload emitted for every successfully parsed frame: its
/// classification, the matching message, and the raw landmark values.
#[derive(Debug, Clone, PartialEq)]
pub struct PostureUpdate {
    pub posture: Posture,
    pub message: String,
    pub metrics: Option<PostureMetrics>,
}

/// The refreshed summary of the current session.
#[derive(Debug, Clone, PartialEq)]
pub struct SessionLogsUpdate {
    pub logs: Vec<PostureLog>,
}

/// The payload of an outward notification trigger.
#[derive(Debug, Clone, PartialEq)]
pub struct NotificationEvent {
    pub posture: String,
    pub message: String,
    pub is_good_posture: bool,
}

/// What a desktop notification should show.  A timeout of zero means the
/// notification persists until it is replaced or closed.
#[derive(Debug, Clone, PartialEq)]
pub struct NotificationRequest {
    pub title: String,
    pub body: String,
    pub timeout_secs: u64,
}

} // verus!
