use tapo_control::device::{Command, Credentials, DeviceKind, Endpoint, Payload, Target, TransportReply};
use tapo_control::error::{CommandError, TransportFailure};
use tapo_control::session::{CommandExecution, ExecPhase, SessionAction, SessionManager, Validity};

fn endpoint() -> Endpoint {
    Endpoint { address: String::from("192.168.0.10"), kind: DeviceKind::Plug }
}

fn credentials() -> Credentials {
    Credentials { username: String::from("user@example.com"), secret: String::from("secret") }
}

fn manager() -> SessionManager {
    SessionManager::new(endpoint(), credentials())
}

#[test]
fn two_overlapping_requests_start_one_auth() {
    let mut m = manager();
    let mut auth_round_trips: u32 = 0;

    let a1 = m.ensure_session();
    if a1 == SessionAction::StartAuth {
        auth_round_trips += 1;
    }
    // A second caller arrives before the first authentication finishes.
    let a2 = m.ensure_session();
    if a2 == SessionAction::StartAuth {
        auth_round_trips += 1;
    }

    assert_eq!(a1, SessionAction::StartAuth);
    assert_eq!(a2, SessionAction::AwaitPending);
    assert_eq!(auth_round_trips, 1);
}

#[test]
fn valid_session_hands_out_cached_token() {
    let mut m = manager();
    assert_eq!(m.ensure_session(), SessionAction::StartAuth);
    m.finish_auth(Some(7));
    assert_eq!(m.session.validity, Validity::Valid);
    // No further round trip: the cached token is reused.
    assert_eq!(m.ensure_session(), SessionAction::UseToken(7));
    assert_eq!(m.ensure_session(), SessionAction::UseToken(7));
}

#[test]
fn rejected_auth_leaves_session_expired() {
    let mut m = manager();
    assert_eq!(m.ensure_session(), SessionAction::StartAuth);
    m.finish_auth(None);
    assert_eq!(m.session.validity, Validity::Expired);
    assert!(!m.auth_in_flight);
}

#[test]
fn indeterminate_session_revalidates_on_next_use() {
    let mut m = manager();
    assert_eq!(m.ensure_session(), SessionAction::StartAuth);
    m.finish_auth(Some(3));
    m.mark_indeterminate();
    assert_eq!(m.session.validity, Validity::Unestablished);
    // The next use re-validates instead of trusting stale state.
    assert_eq!(m.ensure_session(), SessionAction::StartAuth);
}

#[test]
fn expire_once_then_success_retries_exactly_once() {
    let mut m = manager();
    assert_eq!(m.ensure_session(), SessionAction::StartAuth);
    m.finish_auth(Some(1));

    let mut sends: u32 = 0;
    let mut auths: u32 = 1;
    let mut exec = CommandExecution::begin(Command::SetPower(Target::Device, true));

    // Stub transport: first send reports an expired session.
    sends += 1;
    exec.on_reply(&mut m, TransportReply::AuthExpired);
    assert!(matches!(exec.phase, ExecPhase::AwaitingRefresh));
    assert_eq!(m.session.validity, Validity::Expired);

    // The one permitted refresh.
    assert_eq!(m.ensure_session(), SessionAction::StartAuth);
    auths += 1;
    m.finish_auth(Some(2));
    exec.resume_after_refresh(&m);

    // Stub transport: the resend succeeds.
    sends += 1;
    exec.on_reply(&mut m, TransportReply::Done(Payload::Ack));

    assert_eq!(sends, 2);
    assert_eq!(auths, 2);
    assert!(matches!(exec.into_result(), Ok(Payload::Ack)));
}

#[test]
fn expire_twice_surfaces_authentication_error() {
    let mut m = manager();
    assert_eq!(m.ensure_session(), SessionAction::StartAuth);
    m.finish_auth(Some(1));

    let mut exec = CommandExecution::begin(Command::QueryInfo(Target::Device));
    exec.on_reply(&mut m, TransportReply::AuthExpired);
    assert_eq!(m.ensure_session(), SessionAction::StartAuth);
    m.finish_auth(Some(2));
    exec.resume_after_refresh(&m);
    // The resend also comes back expired: no further retry.
    exec.on_reply(&mut m, TransportReply::AuthExpired);
    assert!(matches!(exec.phase, ExecPhase::Complete(Err(CommandError::Authentication))));
    assert!(matches!(exec.into_result(), Err(CommandError::Authentication)));
}

#[test]
fn failed_refresh_surfaces_authentication_error() {
    let mut m = manager();
    assert_eq!(m.ensure_session(), SessionAction::StartAuth);
    m.finish_auth(Some(1));

    let mut exec = CommandExecution::begin(Command::ListChildren);
    exec.on_reply(&mut m, TransportReply::AuthExpired);
    assert_eq!(m.ensure_session(), SessionAction::StartAuth);
    m.finish_auth(None);
    exec.refresh_failed();
    assert!(matches!(exec.into_result(), Err(CommandError::Authentication)));
}

#[test]
fn network_error_propagates_unchanged_without_retry() {
    let mut m = manager();
    assert_eq!(m.ensure_session(), SessionAction::StartAuth);
    m.finish_auth(Some(1));

    let mut exec = CommandExecution::begin(Command::QueryInfo(Target::Child(4)));
    exec.on_reply(&mut m, TransportReply::NetworkError);
    assert!(matches!(
        exec.into_result(),
        Err(CommandError::Transport(TransportFailure::Network))
    ));
    // A non-auth failure does not invalidate the session.
    assert_eq!(m.session.validity, Validity::Valid);
}

#[test]
fn timeout_leaves_session_indeterminate_and_revalidates() {
    let mut m = manager();
    assert_eq!(m.ensure_session(), SessionAction::StartAuth);
    m.finish_auth(Some(1));

    let mut exec = CommandExecution::begin(Command::QueryInfo(Target::Device));
    // The bounded wait for the reply runs out.
    exec.attempt_timed_out(&mut m);
    assert!(matches!(
        exec.into_result(),
        Err(CommandError::Transport(TransportFailure::Timeout))
    ));
    // The session is indeterminate, not condemned: the next use re-validates.
    assert_eq!(m.session.validity, Validity::Unestablished);
    assert_eq!(m.ensure_session(), SessionAction::StartAuth);
}

#[test]
fn malformed_response_propagates_unchanged() {
    let mut m = manager();
    assert_eq!(m.ensure_session(), SessionAction::StartAuth);
    m.finish_auth(Some(1));

    let mut exec = CommandExecution::begin(Command::ListChildren);
    exec.on_reply(&mut m, TransportReply::MalformedResponse);
    assert!(matches!(
        exec.into_result(),
        Err(CommandError::Transport(TransportFailure::Malformed))
    ));
}
