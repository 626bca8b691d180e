//! The whole pipeline at the library level: admit, render, and walk
//! the session, as one webhook call would.

use webhook_server::errors::{http_status, WebhookError};
use webhook_server::headers::Headers;
use webhook_server::params::Params;
use webhook_server::request::{get_task_from_request, process_request, Payload};
use webhook_server::session::{Session, SessionAction, SessionEvent};
use webhook_server::settings::{Settings, Webhook};

fn deploy_settings() -> Settings {
    Settings {
        domain: "localhost".to_string(),
        port: 8000,
        secret: None,
        ssl_private_key: None,
        ssl_cert_chain: None,
        basic_auth_user: None,
        basic_auth_password: None,
        basic_auth_and_secret: false,
        webhooks: vec![Webhook {
            name: "deploy".to_string(),
            command: "git pull {{branch}}".to_string(),
            cwd: "/tmp".to_string(),
            pueue_group: "webhook".to_string(),
        }],
    }
}

fn branch_main() -> Option<Params> {
    let mut p = Params::new();
    p.insert("branch".to_string(), "main".to_string());
    Some(p)
}

#[test]
/// A deploy call with no auth configured yields an add-job request
/// carrying the rendered command.
fn deploy_call_reaches_add_job_with_rendered_command() {
    let settings = deploy_settings();
    let headers = Headers::new();
    let body = br#"{"parameters":{"branch":"main"}}"#.to_vec();
    let job = process_request(
        &settings,
        "deploy".to_string(),
        &headers,
        &body,
        branch_main(),
        Vec::new(),
    )
    .unwrap();
    assert_eq!(job.command, "git pull main");
    assert_eq!(job.group, "webhook");
    assert_eq!(job.cwd, "/tmp");

    // drive the session until the add-job request goes out
    let (s, a) = Session::start(b"ack".to_vec(), job);
    assert_eq!(a, SessionAction::Connect);
    let (s, a) = s.step(SessionEvent::Connected);
    assert_eq!(a, SessionAction::SendSecret);
    let (s, a) = s.step(SessionEvent::Frame {
        payload: b"ack".to_vec(),
    });
    assert_eq!(a, SessionAction::RequestStatus);
    let (s, a) = s.step(SessionEvent::Status {
        groups: vec!["webhook".to_string()],
    });
    assert_eq!(a, SessionAction::AddJob);
    assert_eq!(s.job.command, "git pull main");
}

#[test]
/// An unknown webhook name is a 400 naming the webhook, decided before
/// any daemon session exists.
fn unknown_webhook_is_bad_request() {
    let settings = deploy_settings();
    let headers = Headers::new();
    let e = process_request(
        &settings,
        "unknown-name".to_string(),
        &headers,
        b"",
        None,
        Vec::new(),
    )
    .unwrap_err();
    assert_eq!(http_status(&e), 400);
    assert_eq!(e.message(), "Can't find webhook with name: unknown-name");
}

#[test]
/// A missing template parameter is a 400 as well.
fn missing_parameter_is_bad_request() {
    let settings = deploy_settings();
    let headers = Headers::new();
    let e = process_request(
        &settings,
        "deploy".to_string(),
        &headers,
        b"",
        None,
        Vec::new(),
    )
    .unwrap_err();
    assert!(matches!(e, WebhookError::Template(_)));
    assert_eq!(http_status(&e), 400);
}

#[test]
/// A rejected request is a 401 with the admission error's reason.
fn rejected_request_is_unauthorized() {
    let mut settings = deploy_settings();
    settings.secret = Some("A secret string".to_string());
    let headers = Headers::new();
    let e = process_request(
        &settings,
        "deploy".to_string(),
        &headers,
        b"body",
        branch_main(),
        Vec::new(),
    )
    .unwrap_err();
    assert!(matches!(e, WebhookError::Authentication(_)));
    assert_eq!(http_status(&e), 401);
}

#[test]
/// A malformed payload maps to a 401 carrying the parser's words.
fn payload_error_is_unauthorized() {
    let e = WebhookError::Payload {
        detail: "expected value at line 1 column 1".to_string(),
    };
    assert_eq!(http_status(&e), 401);
    assert_eq!(
        e.message(),
        "Json error: expected value at line 1 column 1"
    );
}

#[test]
/// The environment handed in is the environment of the job.
fn job_carries_environment_and_group() {
    let settings = deploy_settings();
    let envs = vec![("PATH".to_string(), "/usr/bin".to_string())];
    let job = get_task_from_request(&settings, "deploy".to_string(), branch_main(), envs).unwrap();
    assert_eq!(job.envs, vec![("PATH".to_string(), "/usr/bin".to_string())]);
    assert_eq!(job.group, "webhook");
}

#[test]
/// A request without a body has no parameters.
fn empty_payload_has_no_parameters() {
    let p = Payload::empty();
    assert!(p.parameters.is_none());
}
