//! Server configuration: the auth policy and the table of configured
//! webhooks, with the validation that runs once at startup.

use vstd::prelude::*;

use crate::errors::{SettingsError, WebhookError};
use crate::strutil::str_eq;

verus! {

/// One configured webhook: a named job template.
#[derive(Debug)]
pub struct Webhook {
    pub name: String,
    pub command: String,
    pub cwd: String,
    pub pueue_group: String,
}

impl Clone for Webhook {
    fn clone(&self) -> (res: Self)
        ensures
            res == *self,
    {
        Webhook {
            name: self.name.clone(),
            command: self.command.clone(),
            cwd: self.cwd.clone(),
            pueue_group: self.pueue_group.clone(),
        }
    }
}

/// The queue group a webhook runs in when the configuration names none.
pub fn default_pueue_group() -> (r: String)
    ensures
        r@ == "webhook"@,
{
    String::from_str("webhook")
}

/// The long-lived server configuration. Immutable once validated.
#[derive(Debug)]
pub struct Settings {
    pub domain: String,
    pub port: i32,
    pub secret: Option<String>,
    pub ssl_private_key: Option<String>,
    pub ssl_cert_chain: Option<String>,
    pub basic_auth_user: Option<String>,
    pub basic_auth_password: Option<String>,
    pub basic_auth_and_secret: bool,
    pub webhooks: Vec<Webhook>,
}

impl Settings {
    /// A shared secret is configured and non-empty.
    pub open spec fn spec_has_secret(self) -> bool {
        match self.secret {
            Some(s) => s@.len() > 0,
            None => false,
        }
    }

    /// The secret's characters; empty when none is configured.
    pub open spec fn spec_secret(self) -> Seq<char> {
        match self.secret {
            Some(s) => s@,
            None => Seq::empty(),
        }
    }

    /// Both a non-empty user and a non-empty password are configured.
    pub open spec fn spec_has_basic_auth(self) -> bool {
        &&& match self.basic_auth_user {
            Some(u) => u@.len() > 0,
            None => false,
        }
        &&& match self.basic_auth_password {
            Some(p) => p@.len() > 0,
            None => false,
        }
    }

    /// The outcome of startup validation: the first missing field the
    /// configured policy needs, if any.
    pub open spec fn spec_validate(self) -> Result<(), SettingsError> {
        let basic_auth_touched = self.basic_auth_user is Some || self.basic_auth_password is Some;
        if basic_auth_touched && self.basic_auth_user is None {
            Err(SettingsError::MissingBasicAuthUser)
        } else if basic_auth_touched && self.basic_auth_password is None {
            Err(SettingsError::MissingBasicAuthPassword)
        } else if self.basic_auth_and_secret && self.secret is None {
            Err(SettingsError::MissingSecret)
        } else if self.basic_auth_and_secret && self.basic_auth_user is None {
            Err(SettingsError::MissingBasicAuthUser)
        } else if self.basic_auth_and_secret && self.basic_auth_password is None {
            Err(SettingsError::MissingBasicAuthPassword)
        } else {
            Ok(())
        }
    }

    /// Validate a freshly loaded configuration. A policy that names one
    /// half of a basic-auth pair, or that requires both methods without
    /// configuring both, is refused before any request is served.
    pub fn new(settings: Settings) -> (r: Result<Settings, SettingsError>)
        ensures
            match r {
                Ok(out) => settings.spec_validate() is Ok && out == settings,
                Err(e) => settings.spec_validate() == Err::<(), SettingsError>(e),
            },
    {
        if settings.basic_auth_password.is_some() || settings.basic_auth_user.is_some() {
            if settings.basic_auth_user.is_none() {
                return Err(SettingsError::MissingBasicAuthUser);
            }
            if settings.basic_auth_password.is_none() {
                return Err(SettingsError::MissingBasicAuthPassword);
            }
        }
        if settings.basic_auth_and_secret {
            if settings.secret.is_none() {
                return Err(SettingsError::MissingSecret);
            }
            if settings.basic_auth_user.is_none() {
                return Err(SettingsError::MissingBasicAuthUser);
            }
            if settings.basic_auth_password.is_none() {
                return Err(SettingsError::MissingBasicAuthPassword);
            }
        }
        Ok(settings)
    }

    /// The index of the first configured webhook with this name, if any.
    pub open spec fn spec_find_webhook(self, name: Seq<char>) -> Option<int> {
        spec_find_webhook_rec(self.webhooks@, name, 0)
    }

    /// Look a webhook up by name; an unknown name is a distinct,
    /// user-visible error.
    pub fn get_webhook_by_name(&self, name: &str) -> (r: Result<Webhook, WebhookError>)
        ensures
            match r {
                Ok(w) => {
                    &&& self.spec_find_webhook(name@) matches Some(i)
                    &&& 0 <= i < self.webhooks@.len()
                    &&& w == self.webhooks@[self.spec_find_webhook(name@).unwrap()]
                },
                Err(e) => {
                    &&& self.spec_find_webhook(name@) is None
                    &&& e matches WebhookError::UnknownWebhook { name: n } && n@ == name@
                },
            },
    {
        let n = self.webhooks.len();
        for i in 0..n
            invariant
                n == self.webhooks@.len(),
                spec_find_webhook_rec(self.webhooks@, name@, 0) == spec_find_webhook_rec(
                    self.webhooks@,
                    name@,
                    i as int,
                ),
        {
            if str_eq(self.webhooks[i].name.as_str(), name) {
                return Ok(self.webhooks[i].clone());
            }
        }
        Err(WebhookError::UnknownWebhook { name: name.to_owned() })
    }
}

/// First index at or after `i` whose webhook is named `name`.
pub open spec fn spec_find_webhook_rec(ws: Seq<Webhook>, name: Seq<char>, i: int) -> Option<int>
    decreases ws.len() - i,
{
    if i < 0 || i >= ws.len() {
        None
    } else if ws[i].name@ == name {
        Some(i)
    } else {
        spec_find_webhook_rec(ws, name, i + 1)
    }
}

} // verus!
