//! Verified core of a webhook-to-task-queue bridge.
//!
//! An inbound webhook call is admitted or rejected by an authentication
//! decision (HMAC-SHA1 signature and/or HTTP basic auth), its command template
//! is rendered with the request's parameters, and the resulting job is
//! submitted to an external queue daemon through a per-request session.
//! This crate holds the decision logic of all three stages, each with a
//! proved contract; the HTTP listener and the daemon transport live in the
//! surrounding application.

pub mod auth;
pub mod codec;
pub mod crypto;
pub mod errors;
pub mod headers;
pub mod kv;
pub mod params;
pub mod request;
pub mod session;
pub mod settings;
pub mod strutil;
pub mod template;
