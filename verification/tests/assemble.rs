use send::assemble::{
    assemble, assemble_with, resolve_auth, BuildError, CallPlan, Credentials, PreparedCall,
};
use send::body::{BodyPlan, Part, Payload};
use send::client::Config;
use send::environment::Environment;
use send::files::FileOutcome;
use send::request::{Auth, ContentType, KeyValue, Method, Request};

fn kv(key: &str, value: &str, enabled: bool) -> KeyValue {
    KeyValue { enabled, data: (key.to_string(), value.to_string()) }
}

fn pair(key: &str, value: &str) -> (String, String) {
    (key.to_string(), value.to_string())
}

fn env() -> Environment {
    Environment {
        values: vec![pair("U", "a"), pair("P", "b"), pair("HOST", "example.net"), pair("T", "tok")],
    }
}

#[test]
fn basic_credentials_are_resolved() {
    let mut request = Request::new("https://example.net/".to_string(), Method::Get);
    request.auth = Auth::BasicAuth("{{U}}".to_string(), "{{P}}".to_string());
    let call = assemble(&request, &env(), &Config::new()).unwrap();
    assert_eq!(
        call.auth,
        Credentials::Basic { username: "a".to_string(), password: "b".to_string() }
    );
    // the request keeps its templates
    assert_eq!(request.auth, Auth::BasicAuth("{{U}}".to_string(), "{{P}}".to_string()));
}

#[test]
fn bearer_tokens_are_resolved() {
    let auth = Auth::BearerToken("Z-{{T}}".to_string());
    assert_eq!(resolve_auth(&auth, &env()), Credentials::Bearer { token: "Z-tok".to_string() });
    assert_eq!(resolve_auth(&Auth::NoAuth, &env()), Credentials::Anonymous);
}

#[test]
fn an_invalid_url_is_rejected() {
    let request = Request::new("http://[::badurl".to_string(), Method::Get);
    assert_eq!(assemble(&request, &env(), &Config::new()), Err(BuildError::InvalidUrl));
    let relative = Request::new("example.net/path".to_string(), Method::Get);
    assert_eq!(assemble(&relative, &env(), &Config::new()), Err(BuildError::InvalidUrl));
    let empty = Request::new(String::new(), Method::Get);
    assert_eq!(assemble(&empty, &env(), &Config::new()), Err(BuildError::InvalidUrl));
}

#[test]
fn a_url_that_resolves_to_nonsense_is_rejected() {
    let env = Environment { values: vec![pair("HOST", "[::badurl")] };
    let request = Request::new("http://{{HOST}}".to_string(), Method::Get);
    assert_eq!(assemble(&request, &env, &Config::new()), Err(BuildError::InvalidUrl));
}

#[test]
fn enabled_parameters_are_appended_to_the_query() {
    let mut request = Request::new("https://{{HOST}}?dont=clobberme".to_string(), Method::Post);
    request.params =
        vec![kv("lang", "rust", true), kv("off", "x", false), kv("who", "{{U}} & {{P}}", true)];
    let call = assemble(&request, &env(), &Config::new()).unwrap();
    assert_eq!(call.url, "https://example.net/?dont=clobberme&lang=rust&who=a+%26+b");
    assert_eq!(call.method, Method::Post);
}

#[test]
fn equal_parameters_are_all_appended() {
    let mut request = Request::new("https://example.net/find".to_string(), Method::Get);
    request.params = vec![kv("tag", "a", true), kv("tag", "b", true), kv("tag", "a", true)];
    let call = assemble(&request, &env(), &Config::new()).unwrap();
    assert_eq!(call.url, "https://example.net/find?tag=a&tag=b&tag=a");
}

#[test]
fn headers_come_out_in_order_without_the_disabled() {
    let mut request = Request::new("https://example.net/".to_string(), Method::Get);
    request.headers = vec![kv("A", "1", true), kv("B", "2", false), kv("C", "3", true)];
    let call = assemble(&request, &env(), &Config::new()).unwrap();
    assert_eq!(call.headers, vec![pair("A", "1"), pair("C", "3")]);
}

#[test]
fn header_names_and_values_are_resolved() {
    let mut request = Request::new("https://example.net/".to_string(), Method::Get);
    request.headers = vec![kv("X-{{U}}", "{{T}}", true)];
    let call = assemble(&request, &env(), &Config::new()).unwrap();
    assert_eq!(call.headers, vec![pair("X-a", "tok")]);
}

#[test]
fn the_cors_mark_follows_the_configuration() {
    let request = Request::new("https://example.net/".to_string(), Method::Get);
    let mut config = Config::new();
    assert!(!assemble(&request, &env(), &config).unwrap().no_cors);
    config.disable_cors = Some(false);
    assert!(!assemble(&request, &env(), &config).unwrap().no_cors);
    config.disable_cors = Some(true);
    assert!(assemble(&request, &env(), &config).unwrap().no_cors);
}

#[test]
fn the_body_is_planned() {
    let mut request = Request::new("https://example.net/".to_string(), Method::Put);
    request.body = ContentType::Multipart(vec![kv("f", "!!/tmp/missing.bin", true)]);
    let call = assemble(&request, &env(), &Config::new()).unwrap();
    assert_eq!(
        call.body,
        BodyPlan::Multipart(vec![Part::File {
            name: "f".to_string(),
            path: "/tmp/missing.bin".to_string()
        }])
    );
}

#[test]
fn assembly_with_a_given_url() {
    let mut request = Request::new("ignored".to_string(), Method::Delete);
    request.auth = Auth::BearerToken("{{T}}".to_string());
    request.body = ContentType::Raw("{{T}}".to_string());
    request.headers = vec![kv("h", "{{T}}", true)];
    let call =
        assemble_with(&request, &env(), &Config::new(), Some("https://x.test/".to_string()));
    assert_eq!(
        call,
        Ok(CallPlan {
            method: Method::Delete,
            url: "https://x.test/".to_string(),
            no_cors: false,
            auth: Credentials::Bearer { token: "tok".to_string() },
            body: BodyPlan::Text("{{T}}".to_string()),
            headers: vec![pair("h", "tok")],
        })
    );
    assert_eq!(assemble_with(&request, &env(), &Config::new(), None), Err(BuildError::InvalidUrl));
}

#[test]
fn attaching_keeps_the_rest_of_the_call() {
    let plan = CallPlan {
        method: Method::Patch,
        url: "https://x.test/".to_string(),
        no_cors: true,
        auth: Credentials::Anonymous,
        body: BodyPlan::File("/tmp/body.bin".to_string()),
        headers: vec![pair("h", "v")],
    };
    assert_eq!(
        plan.attach(vec![FileOutcome::Available(Vec::new())]),
        Ok(PreparedCall {
            method: Method::Patch,
            url: "https://x.test/".to_string(),
            no_cors: true,
            auth: Credentials::Anonymous,
            body: Payload::File("/tmp/body.bin".to_string()),
            headers: vec![pair("h", "v")],
        })
    );
}

#[test]
fn a_missing_file_fails_the_call() {
    let plan = CallPlan {
        method: Method::Post,
        url: "https://x.test/".to_string(),
        no_cors: false,
        auth: Credentials::Anonymous,
        body: BodyPlan::Multipart(vec![Part::File {
            name: "f".to_string(),
            path: "/tmp/missing.bin".to_string(),
        }]),
        headers: Vec::new(),
    };
    assert_eq!(plan.attach(vec![FileOutcome::Unreadable]), Err(BuildError::BodyFailed));
}
