//! The request specification that a user edits, and the result slot that a
//! send writes back. Each type has a view: its mathematical content.

use vstd::prelude::*;

verus! {

/// The HTTP verb of a request.
#[derive(Clone, Copy, Debug, PartialEq, Eq, Structural)]
pub enum Method {
    Get,
    Post,
    Put,
    Patch,
    Delete,
    Options,
    Head,
    Trace,
    Connect,
}

/// One entry of an ordered list of parameters, headers or form fields.
/// A disabled entry is kept for display and never sent.
#[derive(Debug, PartialEq, Eq)]
pub struct KeyValue {
    pub enabled: bool,
    pub data: (String, String),
}

/// The mathematical content of an entry.
pub struct KeyValueView {
    pub enabled: bool,
    pub key: Seq<char>,
    pub value: Seq<char>,
}

impl View for KeyValue {
    type V = KeyValueView;

    open spec fn view(&self) -> KeyValueView {
        KeyValueView { enabled: self.enabled, key: self.data.0@, value: self.data.1@ }
    }
}

impl Clone for KeyValue {
    fn clone(&self) -> (copy: KeyValue)
        ensures
            copy@ == self@,
    {
        KeyValue { enabled: self.enabled, data: (self.data.0.clone(), self.data.1.clone()) }
    }
}

/// The mathematical content of a list of entries.
pub open spec fn key_values_view(entries: Seq<KeyValue>) -> Seq<KeyValueView> {
    entries.map_values(|e: KeyValue| e@)
}

/// How a request authenticates. The strings are templates: they may hold
/// placeholders, which are substituted when the request is sent.
#[derive(Debug, PartialEq, Eq)]
pub enum Auth {
    NoAuth,
    BasicAuth(String, String),
    BearerToken(String),
}

/// The mathematical content of a declared authentication.
pub enum AuthView {
    NoAuth,
    BasicAuth(Seq<char>, Seq<char>),
    BearerToken(Seq<char>),
}

impl View for Auth {
    type V = AuthView;

    open spec fn view(&self) -> AuthView {
        match self {
            Auth::NoAuth => AuthView::NoAuth,
            Auth::BasicAuth(username, password) => AuthView::BasicAuth(username@, password@),
            Auth::BearerToken(token) => AuthView::BearerToken(token@),
        }
    }
}

/// The declared body of a request. For the five text variants the tag only
/// describes the text; no header follows from it.
#[derive(Debug, PartialEq, Eq)]
pub enum ContentType {
    NoBody,
    File(String),
    Multipart(Vec<KeyValue>),
    Form(Vec<KeyValue>),
    Raw(String),
    Json(String),
    Xml(String),
    Html(String),
    Javascript(String),
}

/// The mathematical content of a declared body.
pub enum ContentTypeView {
    NoBody,
    File(Seq<char>),
    Multipart(Seq<KeyValueView>),
    Form(Seq<KeyValueView>),
    Raw(Seq<char>),
    Json(Seq<char>),
    Xml(Seq<char>),
    Html(Seq<char>),
    Javascript(Seq<char>),
}

impl View for ContentType {
    type V = ContentTypeView;

    open spec fn view(&self) -> ContentTypeView {
        match self {
            ContentType::NoBody => ContentTypeView::NoBody,
            ContentType::File(path) => ContentTypeView::File(path@),
            ContentType::Multipart(fields) => ContentTypeView::Multipart(key_values_view(fields@)),
            ContentType::Form(fields) => ContentTypeView::Form(key_values_view(fields@)),
            ContentType::Raw(text) => ContentTypeView::Raw(text@),
            ContentType::Json(text) => ContentTypeView::Json(text@),
            ContentType::Xml(text) => ContentTypeView::Xml(text@),
            ContentType::Html(text) => ContentTypeView::Html(text@),
            ContentType::Javascript(text) => ContentTypeView::Javascript(text@),
        }
    }
}

/// The switches of one request.
#[derive(Clone, Copy, Debug, PartialEq, Eq, Structural)]
pub struct RequestSettings {
    pub use_config_proxy: bool,
    pub allow_redirects: bool,
    pub store_received_cookies: bool,
    pub pretty_print_response_content: bool,
}

/// What the last send left behind.
#[derive(Debug, PartialEq, Eq)]
pub struct RequestResult {
    pub duration: Option<String>,
    pub status_code: Option<String>,
    pub body: Option<String>,
    pub cookies: Option<String>,
    pub headers: Vec<(String, String)>,
}

/// The mathematical content of a result slot.
pub struct RequestResultView {
    pub duration: Option<Seq<char>>,
    pub status_code: Option<Seq<char>>,
    pub body: Option<Seq<char>>,
    pub cookies: Option<Seq<char>>,
    pub headers: Seq<(Seq<char>, Seq<char>)>,
}

/// The mathematical content of an optional string.
pub open spec fn text_view(text: Option<String>) -> Option<Seq<char>> {
    match text {
        Some(s) => Some(s@),
        None => None,
    }
}

impl View for RequestResult {
    type V = RequestResultView;

    open spec fn view(&self) -> RequestResultView {
        RequestResultView {
            duration: text_view(self.duration),
            status_code: text_view(self.status_code),
            body: text_view(self.body),
            cookies: text_view(self.cookies),
            headers: crate::environment::pairs_view(self.headers@),
        }
    }
}

/// One user-defined API call, with its result slot. `is_pending` is true
/// from the moment a send is accepted until its outcome is written back.
#[derive(Debug, PartialEq, Eq)]
pub struct Request {
    pub url: String,
    pub method: Method,
    pub params: Vec<KeyValue>,
    pub headers: Vec<KeyValue>,
    pub body: ContentType,
    pub auth: Auth,
    pub settings: RequestSettings,
    pub result: RequestResult,
    pub is_pending: bool,
}

/// The mathematical content of a request.
pub struct RequestView {
    pub url: Seq<char>,
    pub method: Method,
    pub params: Seq<KeyValueView>,
    pub headers: Seq<KeyValueView>,
    pub body: ContentTypeView,
    pub auth: AuthView,
    pub settings: RequestSettings,
    pub result: RequestResultView,
    pub is_pending: bool,
}

impl View for Request {
    type V = RequestView;

    open spec fn view(&self) -> RequestView {
        RequestView {
            url: self.url@,
            method: self.method,
            params: key_values_view(self.params@),
            headers: key_values_view(self.headers@),
            body: self.body@,
            auth: self.auth@,
            settings: self.settings,
            result: self.result@,
            is_pending: self.is_pending,
        }
    }
}

impl RequestResult {
    /// A result slot that no send has written yet.
    pub fn new() -> (result: RequestResult)
        ensures
            result@ == (RequestResultView {
                duration: None,
                status_code: None,
                body: None,
                cookies: None,
                headers: Seq::empty(),
            }),
    {
        let result = RequestResult {
            duration: None,
            status_code: None,
            body: None,
            cookies: None,
            headers: Vec::new(),
        };
        proof {
            assert(result@.headers =~= Seq::empty());
        }
        result
    }
}

impl KeyValue {
    /// An enabled entry.
    pub fn new(key: String, value: String) -> (entry: KeyValue)
        ensures
            entry@ == (KeyValueView { enabled: true, key: key@, value: value@ }),
    {
        KeyValue { enabled: true, data: (key, value) }
    }

    /// An entry that is kept and not sent.
    pub fn disabled(key: String, value: String) -> (entry: KeyValue)
        ensures
            entry@ == (KeyValueView { enabled: false, key: key@, value: value@ }),
    {
        KeyValue { enabled: false, data: (key, value) }
    }
}

impl RequestSettings {
    /// The settings of a new request: redirects are followed, received
    /// cookies are stored, the configured proxy is used and responses are
    /// reformatted for reading.
    pub fn new() -> (settings: RequestSettings)
        ensures
            settings == (RequestSettings {
                use_config_proxy: true,
                allow_redirects: true,
                store_received_cookies: true,
                pretty_print_response_content: true,
            }),
    {
        RequestSettings {
            use_config_proxy: true,
            allow_redirects: true,
            store_received_cookies: true,
            pretty_print_response_content: true,
        }
    }
}

impl Request {
    /// An idle request for `url` without parameters, headers, body or
    /// authentication, with the settings of a new request and an empty
    /// result slot.
    pub fn new(url: String, method: Method) -> (request: Request)
        ensures
            request@ == (RequestView {
                url: url@,
                method,
                params: Seq::empty(),
                headers: Seq::empty(),
                body: ContentTypeView::NoBody,
                auth: AuthView::NoAuth,
                settings: RequestSettings {
                    use_config_proxy: true,
                    allow_redirects: true,
                    store_received_cookies: true,
                    pretty_print_response_content: true,
                },
                result: RequestResultView {
                    duration: None,
                    status_code: None,
                    body: None,
                    cookies: None,
                    headers: Seq::empty(),
                },
                is_pending: false,
            }),
    {
        let request = Request {
            url,
            method,
            params: Vec::new(),
            headers: Vec::new(),
            body: ContentType::NoBody,
            auth: Auth::NoAuth,
            settings: RequestSettings::new(),
            result: RequestResult::new(),
            is_pending: false,
        };
        proof {
            assert(request@.params =~= Seq::empty());
            assert(request@.headers =~= Seq::empty());
        }
        request
    }
}

} // verus!
