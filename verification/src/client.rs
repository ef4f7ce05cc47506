//! The client configurator: what the transport client of one send is built
//! with, decided from the request's settings and the global configuration.

use vstd::prelude::*;
use crate::bindings::{
    http_proxy_accepted,
    http_proxy_is_valid,
    https_proxy_accepted,
    https_proxy_is_valid,
};
use crate::environment::pairs_view;
use crate::limits::{is_text_in_reach, text_in_reach};
use crate::request::{text_view, RequestSettings};

verus! {

/// The proxies of the global configuration.
#[derive(Debug, PartialEq, Eq)]
pub struct ProxyConfig {
    pub http_proxy: Option<String>,
    pub https_proxy: Option<String>,
}

/// The global configuration, as far as a send reads it.
#[derive(Debug, PartialEq, Eq)]
pub struct Config {
    pub disable_cors: Option<bool>,
    pub proxy: Option<ProxyConfig>,
}

/// The mathematical content of the global configuration: the proxies taken out of their group.
pub struct ConfigView {
    pub disable_cors: Option<bool>,
    pub http_proxy: Option<Seq<char>>,
    pub https_proxy: Option<Seq<char>>,
}

impl View for Config {
    type V = ConfigView;

    open spec fn view(&self) -> ConfigView {
        ConfigView {
            disable_cors: self.disable_cors,
            http_proxy: match self.proxy {
                Some(proxy) => text_view(proxy.http_proxy),
                None => None,
            },
            https_proxy: match self.proxy {
                Some(proxy) => text_view(proxy.https_proxy),
                None => None,
            },
        }
    }
}

/// What a transport client is built with. One is made for every send.
#[derive(Debug, PartialEq, Eq)]
pub struct ClientPlan {
    /// Whether the client adds a `Referer` header by itself.
    pub referer: bool,
    /// The headers that the client adds to every request.
    pub default_headers: Vec<(String, String)>,
    /// Whether the client follows redirects by itself.
    pub follow_redirects: bool,
    /// Whether the client records the cookies that responses set.
    pub store_cookies: bool,
    pub http_proxy: Option<String>,
    pub https_proxy: Option<String>,
}

/// The mathematical content of a client plan.
pub struct ClientPlanView {
    pub referer: bool,
    pub default_headers: Seq<(Seq<char>, Seq<char>)>,
    pub follow_redirects: bool,
    pub store_cookies: bool,
    pub http_proxy: Option<Seq<char>>,
    pub https_proxy: Option<Seq<char>>,
}

impl View for ClientPlan {
    type V = ClientPlanView;

    open spec fn view(&self) -> ClientPlanView {
        ClientPlanView {
            referer: self.referer,
            default_headers: pairs_view(self.default_headers@),
            follow_redirects: self.follow_redirects,
            store_cookies: self.store_cookies,
            http_proxy: text_view(self.http_proxy),
            https_proxy: text_view(self.https_proxy),
        }
    }
}

/// A configuration that no client can be built from.
#[derive(Clone, Copy, Debug, PartialEq, Eq, Structural)]
pub enum ConfigError {
    InvalidHttpProxy,
    InvalidHttpsProxy,
}

/// The HTTP proxy that a client with these settings goes through, if any.
pub open spec fn http_proxy_in_use(settings: RequestSettings, config: ConfigView) -> Option<
    Seq<char>,
> {
    if settings.use_config_proxy {
        config.http_proxy
    } else {
        None
    }
}

/// The HTTPS proxy that a client with these settings goes through, if any.
pub open spec fn https_proxy_in_use(settings: RequestSettings, config: ConfigView) -> Option<
    Seq<char>,
> {
    if settings.use_config_proxy {
        config.https_proxy
    } else {
        None
    }
}

/// The plan of the client for these settings: no `Referer`, no default
/// headers, redirects and cookie recording as the settings say, and the
/// configured proxies where the settings ask for them.
pub open spec fn client_plan(settings: RequestSettings, config: ConfigView) -> ClientPlanView {
    ClientPlanView {
        referer: false,
        default_headers: Seq::empty(),
        follow_redirects: settings.allow_redirects,
        store_cookies: settings.store_received_cookies,
        http_proxy: http_proxy_in_use(settings, config),
        https_proxy: https_proxy_in_use(settings, config),
    }
}

/// The first fault among the proxies in use, the HTTP proxy coming first.
/// `http_ok` and `https_ok` say whether the transport takes the addresses.
pub open spec fn proxy_fault(
    settings: RequestSettings,
    config: ConfigView,
    http_ok: bool,
    https_ok: bool,
) -> Option<ConfigError> {
    if http_proxy_in_use(settings, config) is Some && !http_ok {
        Some(ConfigError::InvalidHttpProxy)
    } else if https_proxy_in_use(settings, config) is Some && !https_ok {
        Some(ConfigError::InvalidHttpsProxy)
    } else {
        None
    }
}

/// Whether the address of the HTTP proxy in use is good: short enough to
/// be parsed, and taken by the transport.
pub open spec fn http_proxy_ok(settings: RequestSettings, config: ConfigView) -> bool {
    http_proxy_in_use(settings, config) matches Some(url) ==> text_in_reach(url)
        && http_proxy_accepted(url)
}

/// Whether the address of the HTTPS proxy in use is good: short enough to
/// be parsed, and taken by the transport.
pub open spec fn https_proxy_ok(settings: RequestSettings, config: ConfigView) -> bool {
    https_proxy_in_use(settings, config) matches Some(url) ==> text_in_reach(url)
        && https_proxy_accepted(url)
}

fn copy_text(text: &Option<String>) -> (copy: Option<String>)
    ensures
        text_view(copy) == text_view(*text),
{
    match text {
        Some(s) => Some(s.clone()),
        None => None,
    }
}

/// The fault that `proxy_fault` describes, for given answers of the
/// transport.
pub fn find_proxy_fault(
    settings: &RequestSettings,
    config: &Config,
    http_ok: bool,
    https_ok: bool,
) -> (fault: Option<ConfigError>)
    ensures
        fault == proxy_fault(*settings, config@, http_ok, https_ok),
{
    if !settings.use_config_proxy {
        return None;
    }
    match &config.proxy {
        None => None,
        Some(proxy) => {
            if proxy.http_proxy.is_some() && !http_ok {
                Some(ConfigError::InvalidHttpProxy)
            } else if proxy.https_proxy.is_some() && !https_ok {
                Some(ConfigError::InvalidHttpsProxy)
            } else {
                None
            }
        },
    }
}

/// Plans the client of one send. The proxies in use must be good
/// addresses, within the limit of what is parsed and taken by the
/// transport: a configuration with another one is broken, and no client
/// exists for it.
pub fn build_client(settings: &RequestSettings, config: &Config) -> (plan: ClientPlan)
    requires
        http_proxy_ok(*settings, config@),
        https_proxy_ok(*settings, config@),
    ensures
        plan@ == client_plan(*settings, config@),
{
    let mut http_proxy: Option<String> = None;
    let mut https_proxy: Option<String> = None;
    if settings.use_config_proxy {
        match &config.proxy {
            None => {},
            Some(proxy) => {
                http_proxy = copy_text(&proxy.http_proxy);
                https_proxy = copy_text(&proxy.https_proxy);
            },
        }
    }
    let plan = ClientPlan {
        referer: false,
        default_headers: Vec::new(),
        follow_redirects: settings.allow_redirects,
        store_cookies: settings.store_received_cookies,
        http_proxy,
        https_proxy,
    };
    proof {
        assert(plan@.default_headers =~= Seq::empty());
    }
    plan
}

/// Asks the transport about the proxies in use and plans the client where
/// it takes them all; else names the first that it refuses. An address
/// beyond the limit of what is parsed is refused without being asked about.
pub fn try_build_client(settings: &RequestSettings, config: &Config) -> (outcome: Result<
    ClientPlan,
    ConfigError,
>)
    ensures
        match outcome {
            Ok(plan) => {
                &&& http_proxy_ok(*settings, config@)
                &&& https_proxy_ok(*settings, config@)
                &&& plan@ == client_plan(*settings, config@)
            },
            Err(fault) => Some(fault) == proxy_fault(
                *settings,
                config@,
                http_proxy_ok(*settings, config@),
                https_proxy_ok(*settings, config@),
            ),
        },
{
    let mut http_ok = true;
    let mut https_ok = true;
    if settings.use_config_proxy {
        match &config.proxy {
            None => {},
            Some(proxy) => {
                match &proxy.http_proxy {
                    None => {},
                    Some(url) => {
                        http_ok = is_text_in_reach(url.as_str()) && http_proxy_is_valid(
                            url.as_str(),
                        );
                    },
                }
                match &proxy.https_proxy {
                    None => {},
                    Some(url) => {
                        https_ok = is_text_in_reach(url.as_str()) && https_proxy_is_valid(
                            url.as_str(),
                        );
                    },
                }
            },
        }
    }
    match find_proxy_fault(settings, config, http_ok, https_ok) {
        Some(fault) => Err(fault),
        None => Ok(build_client(settings, config)),
    }
}

impl Config {
    /// A configuration that sets nothing: no proxy, and no word on
    /// cross-origin rules.
    pub fn new() -> (config: Config)
        ensures
            config@ == (ConfigView { disable_cors: None, http_proxy: None, https_proxy: None }),
    {
        Config { disable_cors: None, proxy: None }
    }
}

} // verus!
