//! The request assembler: from a request, the environment and the global
//! configuration to the call that the transport makes.

use vstd::prelude::*;
use crate::bindings::{parse_url_with_params, url_with_params};
use crate::body::{
    attach_files,
    attached,
    outcomes_view,
    plan_body,
    planned_body,
    BodyPlan,
    BodyPlanView,
    Payload,
    PayloadView,
};
use crate::client::{Config, ConfigView};
use crate::entries::enabled_pairs;
use crate::environment::{pairs_view, resolve, Environment};
use crate::files::FileOutcome;
use crate::limits::{is_url_in_reach, url_in_reach};
use crate::request::{text_view, Auth, AuthView, Method, Request, RequestView};

verus! {

/// The credentials that a call carries: resolved, never the templates.
#[derive(Debug, PartialEq, Eq)]
pub enum Credentials {
    Anonymous,
    Basic { username: String, password: String },
    Bearer { token: String },
}

/// The mathematical content of credentials.
pub enum CredentialsView {
    Anonymous,
    Basic { username: Seq<char>, password: Seq<char> },
    Bearer { token: Seq<char> },
}

impl View for Credentials {
    type V = CredentialsView;

    open spec fn view(&self) -> CredentialsView {
        match self {
            Credentials::Anonymous => CredentialsView::Anonymous,
            Credentials::Basic { username, password } => CredentialsView::Basic {
                username: username@,
                password: password@,
            },
            Credentials::Bearer { token } => CredentialsView::Bearer { token: token@ },
        }
    }
}

/// Why no call could be assembled. In both cases nothing was sent.
#[derive(Clone, Copy, Debug, PartialEq, Eq, Structural)]
pub enum BuildError {
    /// The resolved URL is no absolute URL.
    InvalidUrl,
    /// A local file that the body needs could not be had.
    BodyFailed,
}

/// An assembled call whose body still waits for its local files.
#[derive(Debug, PartialEq, Eq)]
pub struct CallPlan {
    pub method: Method,
    pub url: String,
    /// Whether the call is marked to bypass cross-origin rules.
    pub no_cors: bool,
    pub auth: Credentials,
    pub body: BodyPlan,
    pub headers: Vec<(String, String)>,
}

/// The mathematical content of a call plan.
pub struct CallPlanView {
    pub method: Method,
    pub url: Seq<char>,
    pub no_cors: bool,
    pub auth: CredentialsView,
    pub body: BodyPlanView,
    pub headers: Seq<(Seq<char>, Seq<char>)>,
}

impl View for CallPlan {
    type V = CallPlanView;

    open spec fn view(&self) -> CallPlanView {
        CallPlanView {
            method: self.method,
            url: self.url@,
            no_cors: self.no_cors,
            auth: self.auth@,
            body: self.body@,
            headers: pairs_view(self.headers@),
        }
    }
}

/// A call that is ready for the transport.
#[derive(Debug, PartialEq, Eq)]
pub struct PreparedCall {
    pub method: Method,
    pub url: String,
    /// Whether the call is marked to bypass cross-origin rules.
    pub no_cors: bool,
    pub auth: Credentials,
    pub body: Payload,
    pub headers: Vec<(String, String)>,
}

/// The mathematical content of a prepared call.
pub struct PreparedCallView {
    pub method: Method,
    pub url: Seq<char>,
    pub no_cors: bool,
    pub auth: CredentialsView,
    pub body: PayloadView,
    pub headers: Seq<(Seq<char>, Seq<char>)>,
}

impl View for PreparedCall {
    type V = PreparedCallView;

    open spec fn view(&self) -> PreparedCallView {
        PreparedCallView {
            method: self.method,
            url: self.url@,
            no_cors: self.no_cors,
            auth: self.auth@,
            body: self.body@,
            headers: pairs_view(self.headers@),
        }
    }
}

/// The credentials that a declared authentication gives: each template
/// resolved on its own.
pub open spec fn resolved_auth(auth: AuthView, env: Seq<(Seq<char>, Seq<char>)>) -> CredentialsView {
    match auth {
        AuthView::NoAuth => CredentialsView::Anonymous,
        AuthView::BasicAuth(username, password) => CredentialsView::Basic {
            username: resolve(username, env),
            password: resolve(password, env),
        },
        AuthView::BearerToken(token) => CredentialsView::Bearer { token: resolve(token, env) },
    }
}

/// The URL of a request as the transport parses it: the resolved template
/// with the enabled parameters appended to its query. There is none where
/// the resolved template is no absolute URL, and none where the template
/// or the parameters are beyond the limit of what is parsed.
pub open spec fn request_url(request: RequestView, env: Seq<(Seq<char>, Seq<char>)>) -> Option<
    Seq<char>,
> {
    let url = resolve(request.url, env);
    let params = enabled_pairs(request.params, env);
    if url_in_reach(url, params) {
        url_with_params(url, params)
    } else {
        None
    }
}

/// The call of a request whose URL came out as `url`.
pub open spec fn planned_call(
    request: RequestView,
    env: Seq<(Seq<char>, Seq<char>)>,
    config: ConfigView,
    url: Seq<char>,
) -> CallPlanView {
    CallPlanView {
        method: request.method,
        url,
        no_cors: config.disable_cors == Some(true),
        auth: resolved_auth(request.auth, env),
        body: planned_body(request.body, env),
        headers: enabled_pairs(request.headers, env),
    }
}

/// What assembling a request gives: its call, unless its URL is invalid.
/// `parsed` is what parsing the URL gave.
pub open spec fn assembled(
    request: RequestView,
    env: Seq<(Seq<char>, Seq<char>)>,
    config: ConfigView,
    parsed: Option<Seq<char>>,
) -> Result<CallPlanView, BuildError> {
    match parsed {
        Some(url) => Ok(planned_call(request, env, config, url)),
        None => Err(BuildError::InvalidUrl),
    }
}

/// The call with its files attached, unless one of them could not be had.
pub open spec fn prepared(plan: CallPlanView, reads: Seq<Option<Seq<u8>>>) -> Result<
    PreparedCallView,
    BuildError,
> {
    match attached(plan.body, reads) {
        Ok(body) => Ok(
            PreparedCallView {
                method: plan.method,
                url: plan.url,
                no_cors: plan.no_cors,
                auth: plan.auth,
                body,
                headers: plan.headers,
            },
        ),
        Err(_) => Err(BuildError::BodyFailed),
    }
}

/// The mathematical content of an assembly's result.
pub open spec fn plan_view(outcome: Result<CallPlan, BuildError>) -> Result<
    CallPlanView,
    BuildError,
> {
    match outcome {
        Ok(plan) => Ok(plan@),
        Err(fault) => Err(fault),
    }
}

/// The mathematical content of a preparation's result.
pub open spec fn prepared_view(outcome: Result<PreparedCall, BuildError>) -> Result<
    PreparedCallView,
    BuildError,
> {
    match outcome {
        Ok(call) => Ok(call@),
        Err(fault) => Err(fault),
    }
}

/// Resolves the templates of a declared authentication, the user name
/// before the password.
pub fn resolve_auth(auth: &Auth, env: &Environment) -> (credentials: Credentials)
    ensures
        credentials@ == resolved_auth(auth@, env@),
{
    match auth {
        Auth::NoAuth => Credentials::Anonymous,
        Auth::BasicAuth(username, password) => {
            let username = env.replace_env_keys_by_value(username.as_str());
            let password = env.replace_env_keys_by_value(password.as_str());
            Credentials::Basic { username, password }
        },
        Auth::BearerToken(token) => Credentials::Bearer {
            token: env.replace_env_keys_by_value(token.as_str()),
        },
    }
}

/// Assembles the call of `request`, given in `parsed` what parsing its URL
/// gave. The request itself is not touched.
pub fn assemble_with(
    request: &Request,
    env: &Environment,
    config: &Config,
    parsed: Option<String>,
) -> (outcome: Result<CallPlan, BuildError>)
    ensures
        plan_view(outcome) == assembled(request@, env@, config@, text_view(parsed)),
{
    match parsed {
        None => Err(BuildError::InvalidUrl),
        Some(url) => {
            let no_cors = match config.disable_cors {
                Some(flag) => flag,
                None => false,
            };
            let auth = resolve_auth(&request.auth, env);
            let body = plan_body(&request.body, env);
            let headers = env.key_value_vec_to_tuple_vec(&request.headers);
            Ok(CallPlan { method: request.method, url, no_cors, auth, body, headers })
        },
    }
}

/// Assembles the call of `request`: resolves the URL and has it parsed
/// with the enabled parameters, then resolves credentials, body and
/// headers. Fails with `InvalidUrl` exactly where the URL does not parse
/// or is beyond the limit of what is parsed.
pub fn assemble(request: &Request, env: &Environment, config: &Config) -> (outcome: Result<
    CallPlan,
    BuildError,
>)
    ensures
        plan_view(outcome) == assembled(request@, env@, config@, request_url(request@, env@)),
{
    let params = env.key_value_vec_to_tuple_vec(&request.params);
    let url = env.replace_env_keys_by_value(request.url.as_str());
    let parsed = if is_url_in_reach(url.as_str(), &params) {
        parse_url_with_params(url.as_str(), &params)
    } else {
        None
    };
    assemble_with(request, env, config, parsed)
}

impl CallPlan {
    /// Attaches the local files that the body needs, from the outcomes of
    /// reading them in the order of `file_paths`. Fails with `BodyFailed`
    /// at the first file that could not be had.
    pub fn attach(self, reads: Vec<FileOutcome>) -> (outcome: Result<PreparedCall, BuildError>)
        ensures
            prepared_view(outcome) == prepared(self@, outcomes_view(reads@)),
    {
        let CallPlan { method, url, no_cors, auth, body, headers } = self;
        match attach_files(body, reads) {
            Ok(body) => Ok(PreparedCall { method, url, no_cors, auth, body, headers }),
            Err(_) => Err(BuildError::BodyFailed),
        }
    }
}

/// A disabled header or parameter never reaches the call: a request is
/// assembled to the same call, and its URL is parsed from the same text
/// and pairs, with the disabled entry or without it.
pub proof fn lemma_disabled_entries_never_reach_the_call(
    request: RequestView,
    env: Seq<(Seq<char>, Seq<char>)>,
    config: ConfigView,
    parsed: Option<Seq<char>>,
    header: int,
    param: int,
)
    requires
        0 <= header < request.headers.len(),
        !request.headers[header].enabled,
        0 <= param < request.params.len(),
        !request.params[param].enabled,
    ensures
        assembled(request, env, config, parsed) == assembled(
            RequestView { headers: request.headers.remove(header), ..request },
            env,
            config,
            parsed,
        ),
        request_url(request, env) == request_url(
            RequestView { params: request.params.remove(param), ..request },
            env,
        ),
{
    crate::entries::lemma_disabled_entry_is_not_sent(request.headers, env, header);
    crate::entries::lemma_disabled_entry_is_not_sent(request.params, env, param);
}

/// The call carries the resolved credentials: the user name and the
/// password of basic authentication, each resolved on its own, and the
/// resolved token of bearer authentication.
pub proof fn lemma_call_carries_resolved_credentials(
    request: RequestView,
    env: Seq<(Seq<char>, Seq<char>)>,
    config: ConfigView,
    url: Seq<char>,
)
    ensures
        request.auth matches AuthView::BasicAuth(username, password) ==> planned_call(
            request,
            env,
            config,
            url,
        ).auth == (CredentialsView::Basic {
            username: resolve(username, env),
            password: resolve(password, env),
        }),
        request.auth matches AuthView::BearerToken(token) ==> planned_call(
            request,
            env,
            config,
            url,
        ).auth == (CredentialsView::Bearer { token: resolve(token, env) }),
        request.auth is NoAuth ==> planned_call(request, env, config, url).auth
            is Anonymous,
{
}

} // verus!
