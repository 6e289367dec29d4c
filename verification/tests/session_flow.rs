use oauth_callback::session::reserve_port_outcome;
use oauth_callback::session::resolve_wait;
use oauth_callback::session::ListenerSession;
use oauth_callback::session::OAuthError;
use oauth_callback::session::SessionState;
use oauth_callback::session::WaitOutcome;
use oauth_callback::OAuthCallbackResult;

#[test]
fn reserved_port_is_returned() {
    let r = reserve_port_outcome(Some(49152));
    assert!(matches!(r, Ok(49152)));
}

#[test]
fn exhausted_ports_surface_no_port_available() {
    let r = reserve_port_outcome(None);
    assert!(matches!(r, Err(OAuthError::NoPortAvailable)));
    assert_eq!(r.unwrap_err().message(), "No available port found");
}

#[test]
fn received_outcome_is_returned_as_is() {
    let outcome = OAuthCallbackResult {
        code: Some("ABC".to_string()),
        error: None,
        error_description: None,
    };
    let r = resolve_wait(WaitOutcome::Received(outcome), 30);
    let got = r.expect("delivery resolves to Ok");
    assert_eq!(got.code.as_deref(), Some("ABC"));
    assert_eq!(got.error, None);
}

#[test]
fn closed_channel_resolves_to_channel_closed() {
    let r = resolve_wait(WaitOutcome::Closed, 30);
    let e = r.unwrap_err();
    assert!(matches!(e, OAuthError::ChannelClosed));
    assert_eq!(e.message(), "OAuth callback channel closed unexpectedly");
}

#[test]
fn elapsed_deadline_resolves_to_timeout_with_the_timeout() {
    let r = resolve_wait(WaitOutcome::DeadlineElapsed, 1);
    let e = r.unwrap_err();
    assert!(matches!(e, OAuthError::Timeout { timeout_secs: 1 }));
    assert_eq!(e.message(), "OAuth callback timed out after 1 seconds");
}

#[test]
fn bind_error_message_names_port_and_cause() {
    let e = OAuthError::BindError { port: 8080, cause: "address in use".to_string() };
    assert_eq!(e.message(), "Failed to bind to 127.0.0.1:8080: address in use");
}

#[test]
fn delivered_session_releases_socket_after_one_delivery() {
    let mut s = ListenerSession::new();
    assert!(matches!(s.state, SessionState::Idle));
    assert!(!s.socket_bound);
    s.on_bind(true);
    assert!(matches!(s.state, SessionState::Bound));
    assert!(s.socket_bound);
    s.on_accept_loop_started();
    assert!(matches!(s.state, SessionState::Waiting));
    s.on_response_written();
    assert!(s.response_written);
    s.on_delivered();
    assert!(matches!(s.state, SessionState::Delivered));
    assert!(!s.socket_bound);
    assert_eq!(s.deliveries, 1);
}

#[test]
fn timed_out_session_releases_socket_without_delivery() {
    let mut s = ListenerSession::new();
    s.on_bind(true);
    s.on_accept_loop_started();
    s.on_deadline();
    assert!(matches!(s.state, SessionState::TimedOut));
    assert!(!s.socket_bound);
    assert_eq!(s.deliveries, 0);
}

#[test]
fn lost_channel_releases_socket_without_delivery() {
    let mut s = ListenerSession::new();
    s.on_bind(true);
    s.on_accept_loop_started();
    s.on_channel_closed();
    assert!(matches!(s.state, SessionState::ChannelLost));
    assert!(!s.socket_bound);
    assert_eq!(s.deliveries, 0);
}

#[test]
fn failed_bind_is_terminal_with_nothing_bound() {
    let mut s = ListenerSession::new();
    s.on_bind(false);
    assert!(matches!(s.state, SessionState::BindFailed));
    assert!(!s.socket_bound);
    assert_eq!(s.deliveries, 0);
}
