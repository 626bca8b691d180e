//! From an admitted request to a fully prepared job: look the webhook
//! up by name, render its command template strictly, and package the
//! result for submission.

use vstd::prelude::*;

use crate::auth::{spec_admit, verify_authentication_header};
use crate::errors::{AuthError, TemplateError, WebhookError};
use crate::headers::Headers;
use crate::params::Params;
use crate::settings::Settings;
use crate::template::{
    render_of, spec_first_missing, spec_placeholders, verify_template_parameters,
};

verus! {

/// The body of a POST request, once parsed: an optional parameter map.
/// Requests of other methods carry no parameters.
#[derive(Debug)]
pub struct Payload {
    pub parameters: Option<Params>,
}

impl Payload {
    /// The payload of a request without a body.
    pub fn empty() -> (r: Payload)
        ensures
            r.parameters is None,
    {
        Payload { parameters: None }
    }
}

/// One job, ready for the daemon: the rendered command, where to run
/// it, which queue group it joins, and the environment it inherits.
/// Produced once per accepted request and consumed exactly once.
#[derive(Debug)]
pub struct RenderedJob {
    pub command: String,
    pub cwd: String,
    pub group: String,
    pub envs: Vec<(String, String)>,
}

/// The parameter map a request carries: empty when none was given.
pub open spec fn spec_params_map(parameters: Option<Params>) -> Map<Seq<char>, Seq<char>> {
    match parameters {
        Some(p) => p.as_map(),
        None => Map::empty(),
    }
}

/// What a successfully built job must be, given the configuration, the
/// webhook name, the parameter map and the environment.
pub open spec fn spec_job_ok(
    s: Settings,
    name: Seq<char>,
    pm: Map<Seq<char>, Seq<char>>,
    envs: Seq<(String, String)>,
    job: RenderedJob,
) -> bool {
    &&& s.spec_find_webhook(name) matches Some(i) && {
        let w = s.webhooks@[i];
        &&& spec_first_missing(spec_placeholders(w.command@), pm) is None
        &&& render_of(w.command@, pm) == Some(job.command@)
        &&& job.cwd@ == w.cwd@
        &&& job.group@ == w.pueue_group@
    }
    &&& job.envs@ == envs
}

/// Which error job building may return, and exactly when.
pub open spec fn spec_job_err(
    s: Settings,
    name: Seq<char>,
    pm: Map<Seq<char>, Seq<char>>,
    e: WebhookError,
) -> bool {
    match e {
        WebhookError::UnknownWebhook { name: n } => s.spec_find_webhook(name) is None && n@
            == name,
        WebhookError::Template(te) => s.spec_find_webhook(name) matches Some(i) && {
            let w = s.webhooks@[i];
            match te {
                TemplateError::MissingKey { key, template } => template@ == w.command@
                    && spec_first_missing(spec_placeholders(w.command@), pm) == Some(key@),
                TemplateError::RenderFailure { .. } => spec_first_missing(
                    spec_placeholders(w.command@),
                    pm,
                ) is None && render_of(w.command@, pm) is None,
            }
        },
        _ => false,
    }
}

/// Build the job for one admitted request: find the webhook, render
/// its template with the request's parameters (strictly), and attach
/// the working directory, queue group and environment.
pub fn get_task_from_request(
    settings: &Settings,
    name: String,
    parameters: Option<Params>,
    envs: Vec<(String, String)>,
) -> (r: Result<RenderedJob, WebhookError>)
    ensures
        ({
            let pm = spec_params_map(parameters);
            match r {
                Ok(job) => spec_job_ok(*settings, name@, pm, envs@, job),
                Err(e) => spec_job_err(*settings, name@, pm, e),
            }
        }),
{
    let parameters = match parameters {
        Some(p) => p,
        None => {
            let p = Params::new();
            proof {
                assert(p.as_map() =~= Map::<Seq<char>, Seq<char>>::empty());
            }
            p
        },
    };
    let webhook = match settings.get_webhook_by_name(name.as_str()) {
        Ok(w) => w,
        Err(e) => {
            return Err(e);
        },
    };
    let command = match verify_template_parameters(webhook.command, &parameters) {
        Ok(c) => c,
        Err(te) => {
            return Err(WebhookError::Template(te));
        },
    };
    Ok(
        RenderedJob {
            command,
            cwd: webhook.cwd,
            group: webhook.pueue_group,
            envs,
        },
    )
}

/// Serve the computational part of one webhook call: admit or reject
/// the request, then build its job. The daemon is involved only after
/// this succeeds; in particular an unknown webhook name is rejected
/// here, before any session is opened.
pub fn process_request(
    settings: &Settings,
    name: String,
    headers: &Headers,
    body: &[u8],
    parameters: Option<Params>,
    envs: Vec<(String, String)>,
) -> (r: Result<RenderedJob, WebhookError>)
    ensures
        ({
            let pm = spec_params_map(parameters);
            match r {
                Ok(job) => spec_admit(*settings, headers@, body@) == Ok::<(), AuthError>(())
                    && spec_job_ok(*settings, name@, pm, envs@, job),
                Err(WebhookError::Authentication(e)) => spec_admit(*settings, headers@, body@)
                    == Err::<(), AuthError>(e),
                Err(e) => spec_admit(*settings, headers@, body@) == Ok::<(), AuthError>(())
                    && spec_job_err(*settings, name@, pm, e),
            }
        }),
{
    match verify_authentication_header(settings, headers, body) {
        Ok(()) => {},
        Err(e) => {
            return Err(WebhookError::Authentication(e));
        },
    }
    get_task_from_request(settings, name, parameters, envs)
}

} // verus!
