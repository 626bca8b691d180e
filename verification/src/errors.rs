//! The closed error taxonomy of the webhook pipeline, and its mapping to
//! HTTP status codes and user-visible reason strings.

use vstd::prelude::*;

verus! {

/// Why admission was refused to a request.
#[derive(Clone, Copy, Debug, PartialEq, Eq, Structural)]
pub enum AuthError {
    /// Both methods were required but no signature header was present.
    MissingSignature,
    /// A signature header was present but lacked the `sha1=` prefix.
    MalformedSignature,
    /// The signature was not valid hex, or its HMAC did not match.
    InvalidSignature,
    /// Basic auth was needed but no authorization header was present.
    MissingCredentials,
    /// The authorization header lacked the `Basic ` prefix.
    MalformedBasicPrefix,
    /// The authorization payload was not valid base64.
    MalformedBase64,
    /// The decoded authorization payload was not valid UTF-8.
    InvalidUtf8,
    /// The decoded credentials did not split into exactly user and password.
    MalformedCredentials,
    /// Basic auth was needed but no user or password is configured.
    CredentialsNotConfigured,
    /// The presented user or password did not match the configured pair.
    InvalidCredentials,
}

impl AuthError {
    /// The reason string carried in the HTTP 401 body for this rejection.
    pub open spec fn spec_message(self) -> Seq<char> {
        match self {
            AuthError::MissingSignature => "No signature header found"@,
            AuthError::MalformedSignature => "Error while parsing signature: Couldn't find prefix"@,
            AuthError::InvalidSignature => "Invalid sha1 signature"@,
            AuthError::MissingCredentials => ""@,
            AuthError::MalformedBasicPrefix => (
            "Error while parsing signature: Couldn't find Basic prefix"@),
            AuthError::MalformedBase64 => "Malformed base64"@,
            AuthError::InvalidUtf8 => "Invalid utf8 token"@,
            AuthError::MalformedCredentials => "Malformed credential string"@,
            AuthError::CredentialsNotConfigured => ""@,
            AuthError::InvalidCredentials => ""@,
        }
    }

    pub fn message(&self) -> (r: String)
        ensures
            r@ == self.spec_message(),
    {
        match self {
            AuthError::MissingSignature => String::from_str("No signature header found"),
            AuthError::MalformedSignature => String::from_str(
                "Error while parsing signature: Couldn't find prefix",
            ),
            AuthError::InvalidSignature => String::from_str("Invalid sha1 signature"),
            AuthError::MissingCredentials => String::from_str(""),
            AuthError::MalformedBasicPrefix => String::from_str(
                "Error while parsing signature: Couldn't find Basic prefix",
            ),
            AuthError::MalformedBase64 => String::from_str("Malformed base64"),
            AuthError::InvalidUtf8 => String::from_str("Invalid utf8 token"),
            AuthError::MalformedCredentials => String::from_str("Malformed credential string"),
            AuthError::CredentialsNotConfigured => String::from_str(""),
            AuthError::InvalidCredentials => String::from_str(""),
        }
    }
}

/// A configuration that cannot be served: the fields that the chosen
/// policy needs are not all present.
#[derive(Clone, Copy, Debug, PartialEq, Eq, Structural)]
pub enum SettingsError {
    MissingSecret,
    MissingBasicAuthUser,
    MissingBasicAuthPassword,
}

impl SettingsError {
    pub open spec fn spec_message(self) -> Seq<char> {
        match self {
            SettingsError::MissingSecret => "Can't find secret in config"@,
            SettingsError::MissingBasicAuthUser => "Can't find basic_auth_user in config"@,
            SettingsError::MissingBasicAuthPassword => (
            "Can't find basic_auth_password in config"@),
        }
    }

    pub fn message(&self) -> (r: String)
        ensures
            r@ == self.spec_message(),
    {
        match self {
            SettingsError::MissingSecret => String::from_str("Can't find secret in config"),
            SettingsError::MissingBasicAuthUser => String::from_str(
                "Can't find basic_auth_user in config",
            ),
            SettingsError::MissingBasicAuthPassword => String::from_str(
                "Can't find basic_auth_password in config",
            ),
        }
    }
}

/// Why template rendering failed.
#[derive(Debug)]
pub enum TemplateError {
    /// A placeholder of the template has no entry in the parameter map.
    /// Carries the offending key and the original template for diagnostics.
    MissingKey { key: String, template: String },
    /// The rendering engine itself refused the template.
    RenderFailure { detail: String },
}

/// Everything that can go wrong while serving one webhook call.
#[derive(Debug)]
pub enum WebhookError {
    /// Admission was refused to the request.
    Authentication(AuthError),
    /// The request body could not be read as the expected payload shape.
    Payload { detail: String },
    /// No webhook of the requested name is configured.
    UnknownWebhook { name: String },
    /// The command template could not be rendered.
    Template(TemplateError),
    /// The queue daemon could not be reached or its handshake failed.
    DaemonUnreachable { detail: String },
    /// The daemon answered with a frame the protocol does not allow here.
    DaemonProtocol { detail: String },
}

impl WebhookError {
    /// The body text of the HTTP error response for this failure.
    pub open spec fn spec_message(self) -> Seq<char> {
        match self {
            WebhookError::Authentication(e) => e.spec_message(),
            WebhookError::Payload { detail } => "Json error: "@ + detail@,
            WebhookError::UnknownWebhook { name } => "Can't find webhook with name: "@ + name@,
            WebhookError::Template(TemplateError::MissingKey { key, .. }) => (
            "Missing template parameter: "@ + key@),
            WebhookError::Template(TemplateError::RenderFailure { detail }) => detail@,
            WebhookError::DaemonUnreachable { detail } => "Pueue daemon cannot be reached: "@
                + detail@,
            WebhookError::DaemonProtocol { detail } => (
            "Failed to send message to Pueue daemon: "@ + detail@),
        }
    }

    pub fn message(&self) -> (r: String)
        ensures
            r@ == self.spec_message(),
    {
        match self {
            WebhookError::Authentication(e) => e.message(),
            WebhookError::Payload { detail } => {
                let mut out = String::from_str("Json error: ");
                out.append(detail.as_str());
                out
            },
            WebhookError::UnknownWebhook { name } => {
                let mut out = String::from_str("Can't find webhook with name: ");
                out.append(name.as_str());
                out
            },
            WebhookError::Template(TemplateError::MissingKey { key, .. }) => {
                let mut out = String::from_str("Missing template parameter: ");
                out.append(key.as_str());
                out
            },
            WebhookError::Template(TemplateError::RenderFailure { detail }) => detail.clone(),
            WebhookError::DaemonUnreachable { detail } => {
                let mut out = String::from_str("Pueue daemon cannot be reached: ");
                out.append(detail.as_str());
                out
            },
            WebhookError::DaemonProtocol { detail } => {
                let mut out = String::from_str("Failed to send message to Pueue daemon: ");
                out.append(detail.as_str());
                out
            },
        }
    }
}

/// The HTTP status code that one webhook-call outcome maps to.
pub open spec fn spec_http_status(e: WebhookError) -> u16 {
    match e {
        WebhookError::Authentication(_) => 401,
        WebhookError::Payload { .. } => 401,
        WebhookError::UnknownWebhook { .. } => 400,
        WebhookError::Template(_) => 400,
        WebhookError::DaemonUnreachable { .. } => 500,
        WebhookError::DaemonProtocol { .. } => 500,
    }
}

/// Map a webhook-call error to the HTTP status code of the response.
pub fn http_status(e: &WebhookError) -> (s: u16)
    ensures
        s == spec_http_status(*e),
{
    match e {
        WebhookError::Authentication(_) => 401,
        WebhookError::Payload { .. } => 401,
        WebhookError::UnknownWebhook { .. } => 400,
        WebhookError::Template(_) => 400,
        WebhookError::DaemonUnreachable { .. } => 500,
        WebhookError::DaemonProtocol { .. } => 500,
    }
}

} // verus!
