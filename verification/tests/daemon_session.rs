//! The daemon session machine, stepped through its runs.

use webhook_server::errors::{http_status, WebhookError};
use webhook_server::request::RenderedJob;
use webhook_server::session::{
    retry_after_failure, retry_start, RetryDecision, Session, SessionAction, SessionEvent,
    SessionState,
};

fn job() -> RenderedJob {
    RenderedJob {
        command: "git pull main".to_string(),
        cwd: "/tmp".to_string(),
        group: "webhook".to_string(),
        envs: Vec::new(),
    }
}

fn ack() -> Vec<u8> {
    b"pueue-ack".to_vec()
}

#[test]
fn session_happy_path_provisions_missing_group() {
    let (s, a) = Session::start(ack(), job());
    assert_eq!(a, SessionAction::Connect);
    let (s, a) = s.step(SessionEvent::Connected);
    assert_eq!(a, SessionAction::SendSecret);
    let (s, a) = s.step(SessionEvent::Frame { payload: ack() });
    assert_eq!(a, SessionAction::RequestStatus);
    let (s, a) = s.step(SessionEvent::Status {
        groups: vec!["default".to_string()],
    });
    assert_eq!(a, SessionAction::AddGroup);
    let (s, a) = s.step(SessionEvent::GroupAdded);
    assert_eq!(a, SessionAction::AddJob);
    assert_eq!(s.job.command, "git pull main");
    let (s, a) = s.step(SessionEvent::JobAdded);
    assert_eq!(a, SessionAction::Close);
    let (s, a) = s.step(SessionEvent::Closed);
    assert_eq!(a, SessionAction::Stop);
    assert!(matches!(s.state, SessionState::Done));
}

#[test]
fn session_skips_provisioning_when_group_exists() {
    let (s, _) = Session::start(ack(), job());
    let (s, _) = s.step(SessionEvent::Connected);
    let (s, _) = s.step(SessionEvent::Frame { payload: ack() });
    let (_, a) = s.step(SessionEvent::Status {
        groups: vec!["default".to_string(), "webhook".to_string()],
    });
    assert_eq!(a, SessionAction::AddJob);
}

#[test]
fn session_bad_ack_fails_and_never_submits() {
    let (s, _) = Session::start(ack(), job());
    let (s, _) = s.step(SessionEvent::Connected);
    let (s, a) = s.step(SessionEvent::Frame {
        payload: b"something else".to_vec(),
    });
    assert_eq!(a, SessionAction::Stop);
    let error = match &s.state {
        SessionState::Failed { error } => error,
        other => panic!("expected a failed session, got {other:?}"),
    };
    assert!(matches!(error, WebhookError::DaemonUnreachable { .. }));
    assert_eq!(http_status(error), 500);
    // whatever arrives later, the machine stays failed and silent
    let (s, a) = s.step(SessionEvent::Status {
        groups: vec!["webhook".to_string()],
    });
    assert_eq!(a, SessionAction::Stop);
    let (s, a) = s.step(SessionEvent::JobAdded);
    assert_eq!(a, SessionAction::Stop);
    assert!(matches!(s.state, SessionState::Failed { .. }));
}

#[test]
fn session_connect_failure_is_unreachable() {
    let (s, _) = Session::start(ack(), job());
    let (s, a) = s.step(SessionEvent::TransportFailed {
        detail: "connection refused".to_string(),
    });
    assert_eq!(a, SessionAction::Stop);
    match &s.state {
        SessionState::Failed { error } => {
            assert_eq!(http_status(error), 500);
            assert_eq!(
                error.message(),
                "Pueue daemon cannot be reached: connection refused"
            );
        }
        other => panic!("expected a failed session, got {other:?}"),
    }
}

#[test]
fn session_unexpected_frame_is_protocol_error() {
    let (s, _) = Session::start(ack(), job());
    let (s, _) = s.step(SessionEvent::Connected);
    let (s, _) = s.step(SessionEvent::Frame { payload: ack() });
    let (s, a) = s.step(SessionEvent::JobAdded);
    assert_eq!(a, SessionAction::Stop);
    match &s.state {
        SessionState::Failed { error } => {
            assert!(matches!(error, WebhookError::DaemonProtocol { .. }));
            assert_eq!(http_status(error), 500);
        }
        other => panic!("expected a failed session, got {other:?}"),
    }
}

#[test]
fn retry_backoff_doubles_and_caps() {
    let (total, backoff) = retry_start();
    assert_eq!((total, backoff), (0, 5));
    let d = retry_after_failure(total, backoff);
    assert_eq!(
        d,
        RetryDecision::RetryAfter {
            wait: 5,
            total_wait: 5,
            backoff: 10
        }
    );
    let d = retry_after_failure(5, 10);
    assert_eq!(
        d,
        RetryDecision::RetryAfter {
            wait: 10,
            total_wait: 15,
            backoff: 20
        }
    );
    let d = retry_after_failure(15, 20);
    assert_eq!(
        d,
        RetryDecision::RetryAfter {
            wait: 20,
            total_wait: 35,
            backoff: 30
        }
    );
    let d = retry_after_failure(35, 30);
    assert_eq!(
        d,
        RetryDecision::RetryAfter {
            wait: 30,
            total_wait: 65,
            backoff: 30
        }
    );
}

#[test]
fn retry_gives_up_after_five_minutes() {
    assert_eq!(retry_after_failure(295, 30), RetryDecision::GiveUp);
    assert_eq!(retry_after_failure(270, 30), RetryDecision::GiveUp);
    assert!(matches!(
        retry_after_failure(265, 30),
        RetryDecision::RetryAfter { .. }
    ));
}
