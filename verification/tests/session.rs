use ws_gateway::resolve::InternalIdentity;
use ws_gateway::session::{
    ClientSession, CloseReason, OutboundQueue, SessionConfig, SessionState, DEFAULT_MAX_FRAME_SIZE,
};

fn active_session(heartbeat_interval: u64, client_timeout: u64, max_frame_size: u64) -> ClientSession {
    let config = SessionConfig::new(heartbeat_interval, client_timeout, max_frame_size).unwrap();
    let identity = InternalIdentity::new(42, String::from("alice"), String::from("dev-1"));
    let mut s = ClientSession::new(identity, config);
    s.on_upgrade_accepted(0);
    s
}

#[test]
fn config_rejects_unusable_bounds() {
    assert!(SessionConfig::new(0, 15, 65_536).is_none());
    assert!(SessionConfig::new(5, 0, 65_536).is_none());
    assert!(SessionConfig::new(5, 15, 0).is_none());
    assert!(SessionConfig::new(5, 15, u64::MAX / 2 + 1).is_none());
    assert!(SessionConfig::new(5, 15, u64::MAX / 2).is_some());
}

#[test]
fn negotiated_frame_bound_is_double_the_nominal_limit() {
    let config = SessionConfig::new(5, 15, DEFAULT_MAX_FRAME_SIZE).unwrap();
    assert_eq!(config.frame_limit(), 131_072);
}

#[test]
fn upgrade_makes_the_session_active() {
    let s = active_session(5, 15, DEFAULT_MAX_FRAME_SIZE);
    assert_eq!(s.state, SessionState::Active);
    assert!(s.registered);
    assert!(!s.deregistered);
    assert_eq!(s.close_reason, None);
}

#[test]
fn failed_upgrade_closes_without_touching_the_hub() {
    let config = SessionConfig::new(5, 15, DEFAULT_MAX_FRAME_SIZE).unwrap();
    let identity = InternalIdentity::new(42, String::from("alice"), String::from("dev-1"));
    let mut s = ClientSession::new(identity, config);
    s.on_upgrade_failed();
    assert_eq!(s.state, SessionState::Closed);
    assert_eq!(s.close_reason, None);
    assert!(!s.registered);
    assert!(!s.deregistered);
}

#[test]
fn boundary_frame_is_accepted() {
    // twice the nominal limit is still accepted, and counts as activity
    let mut s = active_session(5, 15, DEFAULT_MAX_FRAME_SIZE);
    let deregister = s.on_inbound_frame(2 * DEFAULT_MAX_FRAME_SIZE, 3);
    assert!(!deregister);
    assert_eq!(s.state, SessionState::Active);
    assert_eq!(s.last_activity, 3);
}

#[test]
fn oversized_frame_closes_the_session() {
    // one byte over twice the nominal limit is a protocol violation
    let mut s = active_session(5, 15, DEFAULT_MAX_FRAME_SIZE);
    let deregister = s.on_inbound_frame(2 * DEFAULT_MAX_FRAME_SIZE + 1, 3);
    assert!(deregister);
    assert_eq!(s.state, SessionState::Closing);
    assert_eq!(s.close_reason, Some(CloseReason::FrameTooLarge));
    s.on_shutdown_complete();
    assert_eq!(s.state, SessionState::Closed);
    assert_eq!(s.close_reason, Some(CloseReason::FrameTooLarge));
}

#[test]
fn heartbeat_closes_a_silent_session_within_one_tick_of_the_deadline() {
    // heartbeat every 5 s, timeout after 15 s of silence, upgrade at 0
    let mut s = active_session(5, 15, DEFAULT_MAX_FRAME_SIZE);
    assert!(!s.on_heartbeat_tick(5));
    assert!(!s.on_heartbeat_tick(10));
    assert_eq!(s.state, SessionState::Active);
    // the first tick at or after the deadline closes the session
    let deregister = s.on_heartbeat_tick(15);
    assert!(deregister);
    assert_eq!(s.state, SessionState::Closing);
    assert_eq!(s.close_reason, Some(CloseReason::HeartbeatTimeout));
    // elapsed time between last activity and closure: within
    // [client_timeout, client_timeout + heartbeat_interval)
    let elapsed = 15 - s.last_activity;
    assert!((15..20).contains(&elapsed));
    s.on_shutdown_complete();
    assert_eq!(s.state, SessionState::Closed);
    assert_eq!(s.close_reason, Some(CloseReason::HeartbeatTimeout));
}

#[test]
fn inbound_activity_restarts_the_timeout_window() {
    let mut s = active_session(5, 15, DEFAULT_MAX_FRAME_SIZE);
    assert!(!s.on_heartbeat_tick(10));
    s.on_inbound_frame(8, 12);
    // 12 + 15 = 27 is the new deadline
    assert!(!s.on_heartbeat_tick(15));
    assert!(!s.on_heartbeat_tick(25));
    assert!(s.on_heartbeat_tick(27));
    assert_eq!(s.close_reason, Some(CloseReason::HeartbeatTimeout));
}

#[test]
fn peer_close_closes_the_session() {
    let mut s = active_session(5, 15, DEFAULT_MAX_FRAME_SIZE);
    let deregister = s.on_peer_close();
    assert!(deregister);
    assert_eq!(s.close_reason, Some(CloseReason::PeerClosed));
}

#[test]
fn transport_error_closes_the_session() {
    let mut s = active_session(5, 15, DEFAULT_MAX_FRAME_SIZE);
    let deregister = s.on_transport_error();
    assert!(deregister);
    assert_eq!(s.close_reason, Some(CloseReason::TransportError));
}

#[test]
fn deregistration_is_requested_exactly_once() {
    // concurrent close signals: only the first requests deregistration,
    // later ones are no-ops, not errors, whatever their reason
    let mut s = active_session(5, 15, DEFAULT_MAX_FRAME_SIZE);
    assert!(s.on_transport_error());
    assert!(!s.on_peer_close());
    assert!(!s.on_heartbeat_tick(1_000));
    assert!(!s.on_inbound_frame(1_000_000_000, 1_000));
    assert_eq!(s.state, SessionState::Closing);
    assert_eq!(s.close_reason, Some(CloseReason::TransportError));
    s.on_shutdown_complete();
    assert_eq!(s.state, SessionState::Closed);
    // a close signal on a closed session is still a no-op
    assert!(!s.on_peer_close());
    assert!(!s.on_heartbeat_tick(2_000));
    assert_eq!(s.close_reason, Some(CloseReason::TransportError));
}

#[test]
fn closed_is_terminal() {
    let mut s = active_session(5, 15, DEFAULT_MAX_FRAME_SIZE);
    s.on_transport_error();
    s.on_shutdown_complete();
    let before = (s.state, s.close_reason, s.last_activity, s.registered, s.deregistered);
    s.on_upgrade_accepted(9);
    assert!(!s.on_inbound_frame(1, 9));
    s.on_shutdown_complete();
    let after = (s.state, s.close_reason, s.last_activity, s.registered, s.deregistered);
    assert_eq!(before, after);
}

#[test]
fn identity_is_never_mutated() {
    let mut s = active_session(5, 15, DEFAULT_MAX_FRAME_SIZE);
    s.on_inbound_frame(4, 2);
    s.on_heartbeat_tick(50);
    s.on_shutdown_complete();
    assert_eq!(s.identity.uid, 42);
    assert_eq!(s.identity.external_id, "alice");
    assert_eq!(s.identity.device_id, "dev-1");
}

#[test]
fn outbound_messages_keep_submission_order() {
    let mut q = OutboundQueue::new();
    q.submit(vec![1]);
    q.submit(vec![2, 2]);
    q.submit(vec![3]);
    let flushed = q.drain();
    assert_eq!(flushed, vec![vec![1], vec![2, 2], vec![3]]);
    assert!(q.drain().is_empty());
}
