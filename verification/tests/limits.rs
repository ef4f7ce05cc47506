use send::assemble::{assemble, BuildError};
use send::client::{try_build_client, Config, ConfigError, ProxyConfig};
use send::dispatch::{App, SendAction};
use send::environment::Environment;
use send::limits::{are_pairs_in_reach, is_text_in_reach, is_url_in_reach, MAX_URL_LENGTH};
use send::request::{KeyValue, Method, Request, RequestSettings};

fn pair(key: &str, value: &str) -> (String, String) {
    (key.to_string(), value.to_string())
}

fn url_of_length(length: usize) -> String {
    let head = "http://example.net/";
    format!("{}{}", head, "a".repeat(length - head.len()))
}

#[test]
fn the_limit_is_a_mebi() {
    assert_eq!(MAX_URL_LENGTH, 1_048_576);
}

#[test]
fn texts_are_measured_in_characters() {
    assert!(is_text_in_reach(""));
    assert!(is_text_in_reach("http://example.net/"));
    assert!(is_text_in_reach(&"a".repeat(MAX_URL_LENGTH)));
    assert!(!is_text_in_reach(&"a".repeat(MAX_URL_LENGTH + 1)));
    // a character of several bytes counts once
    assert!(is_text_in_reach(&"é".repeat(MAX_URL_LENGTH)));
    assert!(!is_text_in_reach(&"é".repeat(MAX_URL_LENGTH + 1)));
}

#[test]
fn pairs_are_measured_with_their_joints() {
    assert!(are_pairs_in_reach(&Vec::new()));
    assert!(are_pairs_in_reach(&vec![pair("k", "v"), pair("", "")]));
    // one pair of size 1 + (limit - 3) + 2
    assert!(are_pairs_in_reach(&vec![pair("k", &"v".repeat(MAX_URL_LENGTH - 3))]));
    assert!(!are_pairs_in_reach(&vec![pair("k", &"v".repeat(MAX_URL_LENGTH - 2))]));
    assert!(!are_pairs_in_reach(&vec![pair(&"k".repeat(MAX_URL_LENGTH + 1), "")]));
    // empty pairs count two each
    let empty: Vec<(String, String)> = (0..MAX_URL_LENGTH / 2).map(|_| pair("", "")).collect();
    assert!(are_pairs_in_reach(&empty));
    let one_more: Vec<(String, String)> =
        (0..MAX_URL_LENGTH / 2 + 1).map(|_| pair("", "")).collect();
    assert!(!are_pairs_in_reach(&one_more));
    // two pairs that fit alone and not together
    let half = "v".repeat(MAX_URL_LENGTH / 2);
    assert!(are_pairs_in_reach(&vec![pair("", &half)]));
    assert!(!are_pairs_in_reach(&vec![pair("", &half), pair("", &half)]));
}

#[test]
fn a_url_and_its_pairs_are_measured_apart() {
    let long = "a".repeat(MAX_URL_LENGTH);
    assert!(is_url_in_reach(&long, &vec![pair("k", &"v".repeat(MAX_URL_LENGTH - 3))]));
    assert!(!is_url_in_reach(&format!("{long}a"), &Vec::new()));
    assert!(!is_url_in_reach("x", &vec![pair("k", &"v".repeat(MAX_URL_LENGTH))]));
}

#[test]
fn a_url_at_the_limit_is_parsed() {
    let url = url_of_length(MAX_URL_LENGTH);
    let request = Request::new(url.clone(), Method::Get);
    let call = assemble(&request, &Environment::new(), &Config::new()).unwrap();
    assert_eq!(call.url, format!("{url}?"));
}

#[test]
fn a_url_beyond_the_limit_is_invalid() {
    let request = Request::new(url_of_length(MAX_URL_LENGTH + 1), Method::Get);
    assert_eq!(
        assemble(&request, &Environment::new(), &Config::new()),
        Err(BuildError::InvalidUrl)
    );
}

#[test]
fn a_url_that_resolves_beyond_the_limit_is_invalid() {
    let env = Environment { values: vec![pair("PATH", &"a".repeat(MAX_URL_LENGTH))] };
    let request = Request::new("http://example.net/{{PATH}}".to_string(), Method::Get);
    assert_eq!(assemble(&request, &env, &Config::new()), Err(BuildError::InvalidUrl));
}

#[test]
fn parameters_beyond_the_limit_make_the_url_invalid() {
    let mut request = Request::new("http://example.net/#fragment".to_string(), Method::Get);
    request.params = vec![KeyValue::new("k".to_string(), "v".repeat(MAX_URL_LENGTH))];
    assert_eq!(
        assemble(&request, &Environment::new(), &Config::new()),
        Err(BuildError::InvalidUrl)
    );
    // a disabled parameter has no size
    request.params[0].enabled = false;
    let call = assemble(&request, &Environment::new(), &Config::new()).unwrap();
    assert_eq!(call.url, "http://example.net/?#fragment");
}

#[test]
fn a_send_beyond_the_limit_writes_the_sentinel() {
    let request = Request::new(url_of_length(MAX_URL_LENGTH + 1), Method::Get);
    let mut app = App::new(Config::new(), Environment::new(), request);
    assert_eq!(app.send_request(), SendAction::Rejected(BuildError::InvalidUrl));
    assert_eq!(app.selected_request.result.status_code, Some("INVALID URL".to_string()));
    assert!(!app.selected_request.is_pending);
}

#[test]
fn a_proxy_beyond_the_limit_is_refused() {
    let long = format!("socks5://{}", "a".repeat(MAX_URL_LENGTH));
    let settings = RequestSettings::new();
    let http = Config {
        disable_cors: None,
        proxy: Some(ProxyConfig { http_proxy: Some(long.clone()), https_proxy: None }),
    };
    assert_eq!(try_build_client(&settings, &http), Err(ConfigError::InvalidHttpProxy));
    let https = Config {
        disable_cors: None,
        proxy: Some(ProxyConfig { http_proxy: None, https_proxy: Some(long) }),
    };
    assert_eq!(try_build_client(&settings, &https), Err(ConfigError::InvalidHttpsProxy));
}

#[test]
fn a_proxy_at_the_limit_is_asked_about() {
    let head = "socks5://";
    let address = format!("{}{}", head, "a".repeat(MAX_URL_LENGTH - head.len()));
    let config = Config {
        disable_cors: None,
        proxy: Some(ProxyConfig {
            http_proxy: Some(address.clone()),
            https_proxy: Some(address.clone()),
        }),
    };
    let plan = try_build_client(&RequestSettings::new(), &config).unwrap();
    assert_eq!(plan.http_proxy, Some(address.clone()));
    assert_eq!(plan.https_proxy, Some(address));
}
