//! The dispatcher: the protocol of one request slot. A slot is idle or in
//! flight. `send_request` takes an idle slot in flight, unless the request
//! cannot be assembled; `attach_files` and `complete` take it back to idle.
//! The caller does what lies between: it reads the files, runs the call on
//! the transport without blocking, measures the time, and hands the
//! outcome back.

use vstd::prelude::*;
use crate::assemble::{
    assemble,
    assemble_with,
    assembled,
    prepared,
    prepared_view,
    request_url,
    BuildError,
    CallPlan,
    CallPlanView,
    PreparedCall,
    PreparedCallView,
};
use crate::bindings::{debug_duration, duration_text, pretty_json, status_line};
use crate::body::outcomes_view;
use crate::client::{
    client_plan,
    http_proxy_ok,
    https_proxy_ok,
    proxy_fault,
    try_build_client,
    ClientPlan,
    ClientPlanView,
    Config,
    ConfigError,
    ConfigView,
};
use crate::environment::Environment;
use crate::files::FileOutcome;
use crate::request::{text_view, Request, RequestResultView, RequestView};
use crate::response::{
    normalize,
    normalize_with,
    normalized,
    outcome_code,
    outcome_view,
    received_body,
    shows_code,
    status_of_outcome,
    TransportErrorView,
    TransportResponseView,
    Normalized,
    NormalizedView,
    TransportError,
    TransportResponse,
};

verus! {

/// The state that a send reads and writes: the global configuration, the
/// environment, the selected request, and the presentation layer's note
/// of what it highlighted last.
#[derive(Debug, PartialEq, Eq)]
pub struct App {
    pub config: Config,
    pub environment: Environment,
    pub selected_request: Request,
    pub last_highlighted: Option<String>,
}

/// The mathematical content of the state of a send.
pub struct AppView {
    pub config: ConfigView,
    pub environment: Seq<(Seq<char>, Seq<char>)>,
    pub selected_request: RequestView,
    pub last_highlighted: Option<Seq<char>>,
}

impl View for App {
    type V = AppView;

    open spec fn view(&self) -> AppView {
        AppView {
            config: self.config@,
            environment: self.environment@,
            selected_request: self.selected_request@,
            last_highlighted: text_view(self.last_highlighted),
        }
    }
}

/// What the caller of `send_request` has to do next.
#[derive(Debug, PartialEq, Eq)]
pub enum SendAction {
    /// A send is in flight already: nothing was done, nothing is to do.
    Ignored,
    /// The configuration is broken: nothing was changed, and the caller
    /// aborts with a diagnostic.
    Fatal(ConfigError),
    /// The request could not be assembled: its sentinel was written, the
    /// slot is idle, nothing is sent.
    Rejected(BuildError),
    /// The slot is in flight: the caller reads the files that the call
    /// needs and goes on with `attach_files`.
    Accepted { client: ClientPlan, call: CallPlan },
}

/// The mathematical content of an action.
pub enum SendActionView {
    Ignored,
    Fatal(ConfigError),
    Rejected(BuildError),
    Accepted { client: ClientPlanView, call: CallPlanView },
}

impl View for SendAction {
    type V = SendActionView;

    open spec fn view(&self) -> SendActionView {
        match self {
            SendAction::Ignored => SendActionView::Ignored,
            SendAction::Fatal(fault) => SendActionView::Fatal(*fault),
            SendAction::Rejected(fault) => SendActionView::Rejected(*fault),
            SendAction::Accepted { client, call } => SendActionView::Accepted {
                client: client@,
                call: call@,
            },
        }
    }
}

/// The text written as the status of a request that was not sent.
pub open spec fn sentinel(fault: BuildError) -> Seq<char> {
    match fault {
        BuildError::InvalidUrl => "INVALID URL"@,
        BuildError::BodyFailed => "COULD NOT OPEN FILE"@,
    }
}

/// The request after a send was accepted: in flight, nothing else changed.
pub open spec fn accepted(request: RequestView) -> RequestView {
    RequestView { is_pending: true, ..request }
}

/// The request after it could not be assembled: idle, the sentinel as its
/// status, the other fields of the result as they were.
pub open spec fn rejected(request: RequestView, fault: BuildError) -> RequestView {
    RequestView {
        is_pending: false,
        result: RequestResultView { status_code: Some(sentinel(fault)), ..request.result },
        ..request
    }
}

/// The request after its send completed: idle, the result written.
pub open spec fn completed(request: RequestView, fields: NormalizedView, duration: Seq<char>) -> RequestView {
    RequestView {
        is_pending: false,
        result: RequestResultView {
            duration: Some(duration),
            status_code: fields.status_code,
            body: fields.body,
            cookies: fields.cookies,
            headers: fields.headers,
        },
        ..request
    }
}

/// What building the client of the selected request gives.
pub open spec fn client_outcome(app: AppView) -> Result<ClientPlanView, ConfigError> {
    let settings = app.selected_request.settings;
    match proxy_fault(
        settings,
        app.config,
        http_proxy_ok(settings, app.config),
        https_proxy_ok(settings, app.config),
    ) {
        Some(fault) => Err(fault),
        None => Ok(client_plan(settings, app.config)),
    }
}

/// One step of sending: the state after it, and what the caller does next.
/// `client` is what building the client gave and `parsed` what parsing the
/// URL gave. A slot in flight ignores the send; a broken configuration
/// stops it; an invalid URL rejects it; else it is accepted.
pub open spec fn sent(
    app: AppView,
    client: Result<ClientPlanView, ConfigError>,
    parsed: Option<Seq<char>>,
) -> (AppView, SendActionView) {
    if app.selected_request.is_pending {
        (app, SendActionView::Ignored)
    } else {
        match client {
            Err(fault) => (app, SendActionView::Fatal(fault)),
            Ok(client) => match assembled(
                app.selected_request,
                app.environment,
                app.config,
                parsed,
            ) {
                Err(fault) => (
                    AppView { selected_request: rejected(app.selected_request, fault), ..app },
                    SendActionView::Rejected(fault),
                ),
                Ok(call) => (
                    AppView { selected_request: accepted(app.selected_request), ..app },
                    SendActionView::Accepted { client, call },
                ),
            },
        }
    }
}

/// The step after the files were read: the call with its files, the state
/// untouched; or, where a file could not be had, the failure, with the
/// sentinel written and the slot idle.
pub open spec fn files_attached(app: AppView, call: CallPlanView, reads: Seq<Option<Seq<u8>>>) -> (
    AppView,
    Result<PreparedCallView, BuildError>,
) {
    match prepared(call, reads) {
        Ok(ready) => (app, Ok(ready)),
        Err(fault) => (
            AppView { selected_request: rejected(app.selected_request, fault), ..app },
            Err(fault),
        ),
    }
}

/// The state after a send completed: the result written, the slot idle,
/// and the note of the last highlighting cleared.
pub open spec fn finished(app: AppView, fields: NormalizedView, duration: Seq<char>) -> AppView {
    AppView {
        selected_request: completed(app.selected_request, fields, duration),
        last_highlighted: None,
        ..app
    }
}

/// The text of a sentinel.
fn sentinel_text(fault: BuildError) -> (text: String)
    ensures
        text@ == sentinel(fault),
{
    match fault {
        BuildError::InvalidUrl => "INVALID URL".to_owned(),
        BuildError::BodyFailed => "COULD NOT OPEN FILE".to_owned(),
    }
}

impl Request {
    /// Writes the sentinel of `fault` as the status and takes the slot
    /// back to idle. Body, headers, cookies and duration stay.
    pub fn reject(&mut self, fault: BuildError)
        ensures
            final(self)@ == rejected(old(self)@, fault),
    {
        self.result.status_code = Some(sentinel_text(fault));
        self.is_pending = false;
    }

    /// Writes the outcome of a send and takes the slot back to idle.
    pub fn finish(&mut self, fields: Normalized, duration: String)
        ensures
            final(self)@ == completed(old(self)@, fields@, duration@),
    {
        let Normalized { status_code, body, cookies, headers } = fields;
        self.result.status_code = status_code;
        self.result.body = body;
        self.result.cookies = cookies;
        self.result.headers = headers;
        self.result.duration = Some(duration);
        self.is_pending = false;
    }
}

/// The mathematical content of what building a client gave.
pub open spec fn client_view(client: Result<ClientPlan, ConfigError>) -> Result<
    ClientPlanView,
    ConfigError,
> {
    match client {
        Ok(plan) => Ok(plan@),
        Err(fault) => Err(fault),
    }
}

impl App {
    /// The state around `request`, with nothing highlighted yet.
    pub fn new(config: Config, environment: Environment, request: Request) -> (app: App)
        ensures
            app@ == (AppView {
                config: config@,
                environment: environment@,
                selected_request: request@,
                last_highlighted: None,
            }),
    {
        App { config, environment, selected_request: request, last_highlighted: None }
    }

    /// One step of sending the selected request, given in `client` what
    /// building the client gave and in `parsed` what parsing the URL gave.
    pub fn send_request_with(
        &mut self,
        client: Result<ClientPlan, ConfigError>,
        parsed: Option<String>,
    ) -> (action: SendAction)
        ensures
            (final(self)@, action@) == sent(old(self)@, client_view(client), text_view(parsed)),
    {
        if self.selected_request.is_pending {
            return SendAction::Ignored;
        }
        match client {
            Err(fault) => SendAction::Fatal(fault),
            Ok(client) => match assemble_with(
                &self.selected_request,
                &self.environment,
                &self.config,
                parsed,
            ) {
                Err(fault) => {
                    self.selected_request.reject(fault);
                    SendAction::Rejected(fault)
                },
                Ok(call) => {
                    self.selected_request.is_pending = true;
                    SendAction::Accepted { client, call }
                },
            },
        }
    }

    /// Sends the selected request, as far as that can be decided at once.
    ///
    /// While a send is in flight, another is ignored: nothing changes and
    /// nothing is to be sent. Else the client is planned; a proxy that the
    /// transport refuses stops the send, with nothing changed. Else the
    /// call is assembled; an invalid URL writes its sentinel, and the slot
    /// stays idle. Else the slot is in flight and the call is handed out.
    pub fn send_request(&mut self) -> (action: SendAction)
        ensures
            (final(self)@, action@) == sent(
                old(self)@,
                client_outcome(old(self)@),
                request_url(old(self)@.selected_request, old(self)@.environment),
            ),
    {
        if self.selected_request.is_pending {
            return SendAction::Ignored;
        }
        match try_build_client(&self.selected_request.settings, &self.config) {
            Err(fault) => SendAction::Fatal(fault),
            Ok(client) => match assemble(
                &self.selected_request,
                &self.environment,
                &self.config,
            ) {
                Err(fault) => {
                    self.selected_request.reject(fault);
                    SendAction::Rejected(fault)
                },
                Ok(call) => {
                    self.selected_request.is_pending = true;
                    SendAction::Accepted { client, call }
                },
            },
        }
    }

    /// Attaches to an accepted call the files that the caller read, in the
    /// order of the call's `file_paths`. Where one could not be had, the
    /// file sentinel is written and the slot is idle again: nothing is sent.
    pub fn attach_files(&mut self, call: CallPlan, reads: Vec<FileOutcome>) -> (outcome: Result<
        PreparedCall,
        BuildError,
    >)
        ensures
            (final(self)@, prepared_view(outcome)) == files_attached(
                old(self)@,
                call@,
                outcomes_view(reads@),
            ),
    {
        match call.attach(reads) {
            Ok(ready) => Ok(ready),
            Err(fault) => {
                self.selected_request.reject(fault);
                Err(fault)
            },
        }
    }

    /// Writes back what the transport handed over, given in `printed` what
    /// the formatter makes of the received body and in `duration` the
    /// elapsed time as text.
    pub fn complete_with(
        &mut self,
        outcome: Result<TransportResponse, TransportError>,
        printed: Option<String>,
        duration: String,
    )
        ensures
            final(self)@ == finished(
                old(self)@,
                normalized(
                    outcome_view(outcome),
                    old(self)@.selected_request.settings.pretty_print_response_content,
                    text_view(printed),
                ),
                duration@,
            ),
            status_of_outcome(
                outcome_view(outcome),
                final(self)@.selected_request.result.status_code,
            ),
            forall|fault: BuildError|
                final(self)@.selected_request.result.status_code != Some(
                    #[trigger] sentinel(fault),
                ),
    {
        let pretty = self.selected_request.settings.pretty_print_response_content;
        let fields = normalize_with(outcome, pretty, printed);
        proof {
            lemma_status_of_outcome_is_no_sentinel(outcome_view(outcome), fields@.status_code);
        }
        self.selected_request.finish(fields, duration);
        self.last_highlighted = None;
    }

    /// Writes back what the transport handed over after `elapsed_nanos`
    /// nanoseconds: status, headers, cookies and body together, then the
    /// duration; the slot is idle again and the note of the last
    /// highlighting is cleared. This holds for a response and for a failure.
    /// The status is there exactly where the outcome has a code, it begins
    /// with the digits of that code, and so it is never a sentinel.
    pub fn complete(
        &mut self,
        outcome: Result<TransportResponse, TransportError>,
        elapsed_nanos: u64,
    )
        ensures
            final(self)@ == finished(
                old(self)@,
                normalized(
                    outcome_view(outcome),
                    old(self)@.selected_request.settings.pretty_print_response_content,
                    pretty_json(received_body(outcome_view(outcome))),
                ),
                duration_text(elapsed_nanos),
            ),
            status_of_outcome(
                outcome_view(outcome),
                final(self)@.selected_request.result.status_code,
            ),
            forall|fault: BuildError|
                final(self)@.selected_request.result.status_code != Some(
                    #[trigger] sentinel(fault),
                ),
    {
        let pretty = self.selected_request.settings.pretty_print_response_content;
        let fields = normalize(outcome, pretty);
        proof {
            lemma_status_of_outcome_is_no_sentinel(outcome_view(outcome), fields@.status_code);
        }
        let duration = debug_duration(elapsed_nanos);
        self.selected_request.finish(fields, duration);
        self.last_highlighted = None;
    }
}

/// Single flight: while a send is in flight, another send leaves the state
/// as it is and hands nothing out, whatever the client and the URL are.
pub proof fn lemma_single_flight(
    app: AppView,
    client: Result<ClientPlanView, ConfigError>,
    parsed: Option<Seq<char>>,
)
    requires
        app.selected_request.is_pending,
    ensures
        sent(app, client, parsed) == (app, SendActionView::Ignored),
{
}

/// A send is accepted exactly where the slot is idle, the client can be
/// built and the URL parses; the slot is in flight after that, and after
/// nothing else that a send does to an idle slot.
pub proof fn lemma_in_flight_after_acceptance_only(
    app: AppView,
    client: Result<ClientPlanView, ConfigError>,
    parsed: Option<Seq<char>>,
)
    ensures
        sent(app, client, parsed).1 is Accepted <==> !app.selected_request.is_pending
            && client is Ok && parsed is Some,
        !app.selected_request.is_pending ==> (sent(app, client, parsed).0.selected_request.is_pending
            <==> sent(app, client, parsed).1 is Accepted),
{
}

/// Every send that is in flight ends idle: a file that cannot be had takes
/// the slot back to idle, and so does every completion, of a response and
/// of a failure alike.
pub proof fn lemma_send_returns_to_idle(
    app: AppView,
    call: CallPlanView,
    reads: Seq<Option<Seq<u8>>>,
    fields: NormalizedView,
    duration: Seq<char>,
)
    ensures
        files_attached(app, call, reads).1 is Err ==> !files_attached(
            app,
            call,
            reads,
        ).0.selected_request.is_pending,
        files_attached(app, call, reads).1 is Ok ==> files_attached(app, call, reads).0 == app,
        !finished(app, fields, duration).selected_request.is_pending,
{
}

/// A request that was not sent and a send that failed can be told apart:
/// a rejection writes its sentinel as the status and leaves body, headers,
/// cookies and duration as they were; a failure of the transport has a
/// status exactly where it carries one, and its message as the body.
pub proof fn lemma_sentinel_distinction(
    request: RequestView,
    fault: BuildError,
    failure: TransportErrorView,
    pretty: bool,
    printed: Option<Seq<char>>,
)
    ensures
        rejected(request, fault).result.status_code == Some(sentinel(fault)),
        rejected(request, fault).result.body == request.result.body,
        rejected(request, fault).result.headers == request.result.headers,
        rejected(request, fault).result.cookies == request.result.cookies,
        rejected(request, fault).result.duration == request.result.duration,
        normalized(Err(failure), pretty, printed).status_code is None <==> failure.status is None,
        normalized(Err(failure), pretty, printed).body == Some(failure.message),
{
}

/// The whole protocol ends idle. From an idle slot a send is rejected,
/// with the slot idle, or accepted, with the slot in flight. After that
/// the files either fail to attach, with the slot idle, or attach and
/// leave the state as it is; and whatever the transport then hands back,
/// its completion leaves the slot idle.
pub proof fn lemma_protocol_ends_idle(
    app: AppView,
    client: Result<ClientPlanView, ConfigError>,
    parsed: Option<Seq<char>>,
    reads: Seq<Option<Seq<u8>>>,
    fields: NormalizedView,
    duration: Seq<char>,
)
    requires
        !app.selected_request.is_pending,
    ensures
        ({
            let (started, action) = sent(app, client, parsed);
            match action {
                SendActionView::Ignored => false,
                SendActionView::Fatal(_) => started == app,
                SendActionView::Rejected(_) => !started.selected_request.is_pending,
                SendActionView::Accepted { client, call } => {
                    let (loaded, ready) = files_attached(started, call, reads);
                    &&& started.selected_request.is_pending
                    &&& ready is Err ==> !loaded.selected_request.is_pending
                    &&& ready is Ok ==> loaded == started && !finished(
                        loaded,
                        fields,
                        duration,
                    ).selected_request.is_pending
                },
            }
        }),
{
}

/// The two sentinels are different texts.
pub proof fn lemma_sentinels_differ()
    ensures
        sentinel(BuildError::InvalidUrl) != sentinel(BuildError::BodyFailed),
{
    reveal_strlit("INVALID URL");
    reveal_strlit("COULD NOT OPEN FILE");
    assert(sentinel(BuildError::InvalidUrl).len() == 11);
    assert(sentinel(BuildError::BodyFailed).len() == 19);
}

/// A text that shows a status code is no sentinel: it begins with a digit,
/// and a sentinel with a letter.
pub proof fn lemma_status_is_no_sentinel(text: Seq<char>, code: u16, fault: BuildError)
    requires
        shows_code(text, code),
    ensures
        text != sentinel(fault),
{
    reveal_strlit("INVALID URL");
    reveal_strlit("COULD NOT OPEN FILE");
    assert(sentinel(BuildError::InvalidUrl)[0] == 'I');
    assert(sentinel(BuildError::BodyFailed)[0] == 'C');
    assert(1 <= code as int / 100 <= 9);
}

/// The status that an outcome writes is never a sentinel.
pub proof fn lemma_status_of_outcome_is_no_sentinel(
    outcome: Result<TransportResponseView, TransportErrorView>,
    status_code: Option<Seq<char>>,
)
    requires
        status_of_outcome(outcome, status_code),
    ensures
        forall|fault: BuildError| status_code != Some(#[trigger] sentinel(fault)),
{
    assert forall|fault: BuildError| status_code != Some(#[trigger] sentinel(fault)) by {
        if let Some(code) = outcome_code(outcome) {
            lemma_status_is_no_sentinel(status_line(code), code, fault);
        }
    }
}

/// The state in which an attempt on an idle slot ends, for given answers
/// of everything outside: the client, the parsed URL, the files read, what
/// the transport handed back, what the formatter made of the body, and
/// the elapsed time as text.
pub open spec fn ended(
    app: AppView,
    client: Result<ClientPlanView, ConfigError>,
    parsed: Option<Seq<char>>,
    reads: Seq<Option<Seq<u8>>>,
    outcome: Result<TransportResponseView, TransportErrorView>,
    printed: Option<Seq<char>>,
    duration: Seq<char>,
) -> AppView {
    let (started, action) = sent(app, client, parsed);
    match action {
        SendActionView::Accepted { client, call } => {
            let (loaded, ready) = files_attached(started, call, reads);
            match ready {
                Ok(_) => finished(
                    loaded,
                    normalized(
                        outcome,
                        loaded.selected_request.settings.pretty_print_response_content,
                        printed,
                    ),
                    duration,
                ),
                Err(_) => loaded,
            }
        },
        _ => started,
    }
}

/// The status that an attempt leaves tells how it ended. Take an idle slot
/// and a client that could be built. Then the status is the invalid-URL
/// sentinel exactly where the URL did not parse; the file sentinel exactly
/// where it parsed and a file of the body could not be had; absent exactly
/// where the call was sent and failed without an HTTP status, and then the
/// body is the failure's message, which is not empty, with no headers and
/// no cookies; and else the text of the HTTP status that came back.
///
/// Two things are asked of what comes from outside: that a status text
/// shows its code, which `App::complete` establishes for the status that
/// it writes, and that a failure has a message.
pub proof fn lemma_status_tells_the_ending(
    app: AppView,
    client: ClientPlanView,
    parsed: Option<Seq<char>>,
    reads: Seq<Option<Seq<u8>>>,
    outcome: Result<TransportResponseView, TransportErrorView>,
    printed: Option<Seq<char>>,
    duration: Seq<char>,
)
    requires
        !app.selected_request.is_pending,
        outcome_code(outcome) matches Some(code) ==> shows_code(status_line(code), code),
        outcome matches Err(failure) ==> failure.message.len() > 0,
    ensures
        ({
            let result = ended(
                app,
                Ok(client),
                parsed,
                reads,
                outcome,
                printed,
                duration,
            ).selected_request.result;
            let built = assembled(app.selected_request, app.environment, app.config, parsed);
            let sent_off = built matches Ok(call) && prepared(call, reads) is Ok;
            &&& result.status_code == Some(sentinel(BuildError::InvalidUrl)) <==> parsed is None
            &&& result.status_code == Some(sentinel(BuildError::BodyFailed)) <==> (built matches Ok(
                call,
            ) && prepared(call, reads) is Err)
            &&& result.status_code is None <==> sent_off && outcome_code(outcome) is None
            &&& result.status_code is None ==> (outcome matches Err(failure) && result.body == Some(
                failure.message,
            ) && failure.message.len() > 0 && result.headers == Seq::<
                (Seq<char>, Seq<char>),
            >::empty() && result.cookies is None)
            &&& (sent_off && outcome_code(outcome) is Some) ==> result.status_code == Some(
                status_line(outcome_code(outcome)->0),
            )
        }),
{
    lemma_sentinels_differ();
    if let Some(code) = outcome_code(outcome) {
        lemma_status_is_no_sentinel(status_line(code), code, BuildError::InvalidUrl);
        lemma_status_is_no_sentinel(status_line(code), code, BuildError::BodyFailed);
    }
}

} // verus!
