//! The response normalizer: from what the transport hands back to the
//! fields of a result slot.

use vstd::prelude::*;
use crate::bindings::{pretty_json, pretty_print_json, status_line, status_text};
use crate::environment::pairs_view;
use crate::request::text_view;
use crate::text::{chars_of, push_all, same_chars, slice_of, string_of};

verus! {

/// An HTTP status code: a number from 100 to 999.
#[derive(Clone, Copy, Debug, PartialEq, Eq)]
pub struct Status {
    code: u16,
}

impl View for Status {
    type V = u16;

    closed spec fn view(&self) -> u16 {
        self.code
    }
}

impl Status {
    #[verifier::type_invariant]
    spec fn in_range(self) -> bool {
        100 <= self.code <= 999
    }

    /// The status with the code `code`, where that is from 100 to 999.
    pub fn new(code: u16) -> (status: Option<Status>)
        ensures
            match status {
                Some(status) => status@ == code && 100 <= code <= 999,
                None => !(100 <= code <= 999),
            },
    {
        if 100 <= code && code <= 999 {
            Some(Status { code })
        } else {
            None
        }
    }

    /// The code of the status.
    pub fn code(&self) -> (code: u16)
        ensures
            code == self@,
            100 <= code <= 999,
    {
        proof {
            use_type_invariant(self);
        }
        self.code
    }
}

/// A response as the transport received it: its status, its headers with
/// their values as bytes, in the order of receipt, its cookies as pairs of
/// name and value, and its body as text.
#[derive(Debug, PartialEq, Eq)]
pub struct TransportResponse {
    pub status: Status,
    pub headers: Vec<(String, Vec<u8>)>,
    pub cookies: Vec<(String, String)>,
    pub body: String,
}

/// The mathematical content of a response.
pub struct TransportResponseView {
    pub status: u16,
    pub headers: Seq<(Seq<char>, Seq<u8>)>,
    pub cookies: Seq<(Seq<char>, Seq<char>)>,
    pub body: Seq<char>,
}

/// The mathematical content of a list of received headers.
pub open spec fn received_view(headers: Seq<(String, Vec<u8>)>) -> Seq<(Seq<char>, Seq<u8>)> {
    headers.map_values(|h: (String, Vec<u8>)| (h.0@, h.1@))
}

impl View for TransportResponse {
    type V = TransportResponseView;

    open spec fn view(&self) -> TransportResponseView {
        TransportResponseView {
            status: self.status@,
            headers: received_view(self.headers@),
            cookies: pairs_view(self.cookies@),
            body: self.body@,
        }
    }
}

/// A send that the transport could not complete. `status` is there where
/// the failure carries an HTTP status.
#[derive(Debug, PartialEq, Eq)]
pub struct TransportError {
    pub status: Option<Status>,
    pub message: String,
}

/// The mathematical content of a failure of the transport.
pub struct TransportErrorView {
    pub status: Option<u16>,
    pub message: Seq<char>,
}

impl View for TransportError {
    type V = TransportErrorView;

    open spec fn view(&self) -> TransportErrorView {
        TransportErrorView {
            status: match self.status {
                Some(status) => Some(status@),
                None => None,
            },
            message: self.message@,
        }
    }
}

/// The mathematical content of what the transport hands back.
pub open spec fn outcome_view(outcome: Result<TransportResponse, TransportError>) -> Result<
    TransportResponseView,
    TransportErrorView,
> {
    match outcome {
        Ok(response) => Ok(response@),
        Err(failure) => Err(failure@),
    }
}

/// The four fields of a result slot that a completed send writes together.
#[derive(Debug, PartialEq, Eq)]
pub struct Normalized {
    pub status_code: Option<String>,
    pub body: Option<String>,
    pub cookies: Option<String>,
    pub headers: Vec<(String, String)>,
}

/// The mathematical content of the written fields.
pub struct NormalizedView {
    pub status_code: Option<Seq<char>>,
    pub body: Option<Seq<char>>,
    pub cookies: Option<Seq<char>>,
    pub headers: Seq<(Seq<char>, Seq<char>)>,
}

impl View for Normalized {
    type V = NormalizedView;

    open spec fn view(&self) -> NormalizedView {
        NormalizedView {
            status_code: text_view(self.status_code),
            body: text_view(self.body),
            cookies: text_view(self.cookies),
            headers: pairs_view(self.headers@),
        }
    }
}

/// Whether `b` may stand in a header value that is text: a visible ASCII
/// character, a space or a tab.
pub open spec fn is_visible(b: u8) -> bool {
    32 <= b < 127 || b == 9
}

/// The value of a header as text: its bytes as characters where every one
/// of them may stand in a text; else, for a value that cannot be decoded,
/// the empty text.
pub open spec fn header_text(value: Seq<u8>) -> Seq<char> {
    if forall|i: int| 0 <= i < value.len() ==> is_visible(#[trigger] value[i]) {
        value.map_values(|b: u8| b as char)
    } else {
        Seq::empty()
    }
}

/// A received header with its value as text.
pub open spec fn header_pair(header: (Seq<char>, Seq<u8>)) -> (Seq<char>, Seq<char>) {
    (header.0, header_text(header.1))
}

/// The received headers as pairs of texts, in the order of receipt.
pub open spec fn header_pairs(headers: Seq<(Seq<char>, Seq<u8>)>) -> Seq<(Seq<char>, Seq<char>)> {
    headers.map_values(|h: (Seq<char>, Seq<u8>)| header_pair(h))
}

/// The line that summarises one cookie: `name: value`.
pub open spec fn cookie_line(cookie: (Seq<char>, Seq<char>)) -> Seq<char> {
    cookie.0 + seq![':', ' '] + cookie.1
}

/// The summary of the cookies: one line for each, joined by line feeds;
/// empty where there is no cookie.
pub open spec fn cookie_summary(cookies: Seq<(Seq<char>, Seq<char>)>) -> Seq<char>
    decreases cookies.len(),
{
    if cookies.len() == 0 {
        Seq::empty()
    } else if cookies.len() == 1 {
        cookie_line(cookies[0])
    } else {
        cookie_summary(cookies.drop_last()) + seq!['\n'] + cookie_line(cookies.last())
    }
}

/// Whether `c` is an ASCII letter, an ASCII digit or `_`.
pub open spec fn is_word(c: char) -> bool {
    ||| 'a' <= c <= 'z'
    ||| 'A' <= c <= 'Z'
    ||| '0' <= c <= '9'
    ||| c == '_'
}

/// Whether `a` and `b` are the same character, ASCII letters compared
/// without regard to case.
pub open spec fn same_letter(a: char, b: char) -> bool {
    ||| a == b
    ||| 'A' <= a <= 'Z' && a as u32 + 32 == b as u32
    ||| 'A' <= b <= 'Z' && b as u32 + 32 == a as u32
}

/// Whether two texts are equal, ASCII letters compared without regard to
/// case.
pub open spec fn same_name(a: Seq<char>, b: Seq<char>) -> bool {
    &&& a.len() == b.len()
    &&& forall|i: int| 0 <= i < a.len() ==> same_letter(#[trigger] a[i], b[i])
}

/// The name of the header that tells the format of a body.
pub open spec fn content_type_name() -> Seq<char> {
    "content-type"@
}

/// The value of the first header named `content-type`, in any case.
pub open spec fn content_type_of(headers: Seq<(Seq<char>, Seq<char>)>) -> Option<Seq<char>>
    decreases headers.len(),
{
    if headers.len() == 0 {
        None
    } else if same_name(headers[0].0, content_type_name()) {
        Some(headers[0].1)
    } else {
        content_type_of(headers.skip(1))
    }
}

/// Whether position `at` of `value` holds a `/` between two word
/// characters: the place where a media type is split.
pub open spec fn splits_at(value: Seq<char>, at: int) -> bool {
    &&& 0 < at
    &&& at + 1 < value.len()
    &&& value[at] == '/'
    &&& is_word(value[at - 1])
    &&& is_word(value[at + 1])
}

/// The first position from `from` on at which `value` is split, if any.
pub open spec fn first_split(value: Seq<char>, from: int) -> Option<int>
    decreases value.len() - from,
{
    if from >= value.len() {
        None
    } else if splits_at(value, from) {
        Some(from)
    } else {
        first_split(value, from + 1)
    }
}

/// Where the run of word characters that begins at `from` ends.
pub open spec fn word_end(value: Seq<char>, from: int) -> int
    decreases value.len() - from,
{
    if from < 0 || from >= value.len() || !is_word(value[from]) {
        from
    } else {
        word_end(value, from + 1)
    }
}

/// The format that a content type names: the word behind the first `/`
/// that stands between two word characters. `text/html; charset=utf-8`
/// names `html`.
pub open spec fn format_in(value: Seq<char>) -> Option<Seq<char>> {
    match first_split(value, 0) {
        Some(at) => Some(value.subrange(at + 1, word_end(value, at + 1))),
        None => None,
    }
}

/// `first_split` finds the first place from `from` on at which the value is
/// split, and finds none only where there is none.
pub proof fn lemma_first_split(value: Seq<char>, from: int)
    requires
        0 <= from,
    ensures
        match first_split(value, from) {
            Some(at) => {
                &&& from <= at
                &&& splits_at(value, at)
                &&& forall|k: int| from <= k < at ==> !splits_at(value, k)
            },
            None => forall|k: int| from <= k ==> !splits_at(value, k),
        },
    decreases value.len() - from,
{
    if from < value.len() && !splits_at(value, from) {
        lemma_first_split(value, from + 1);
    }
}

/// `word_end` is where the run of word characters from `from` ends: all
/// before it are word characters, and the one at it, if any, is none.
pub proof fn lemma_word_end(value: Seq<char>, from: int)
    requires
        0 <= from <= value.len(),
    ensures
        from <= word_end(value, from) <= value.len(),
        forall|k: int| from <= k < word_end(value, from) ==> is_word(#[trigger] value[k]),
        word_end(value, from) == value.len() || !is_word(value[word_end(value, from)]),
    decreases value.len() - from,
{
    if from < value.len() && is_word(value[from]) {
        lemma_word_end(value, from + 1);
    }
}

/// A format is a word: it is not empty, and all its characters are word
/// characters.
pub proof fn lemma_format_is_a_word(value: Seq<char>)
    requires
        format_in(value) is Some,
    ensures
        format_in(value)->0.len() > 0,
        forall|k: int|
            0 <= k < format_in(value)->0.len() ==> is_word(#[trigger] format_in(value)->0[k]),
{
    lemma_first_split(value, 0);
    let at = first_split(value, 0)->0;
    lemma_word_end(value, at + 1);
    let end = word_end(value, at + 1);
    let format = value.subrange(at + 1, end);
    assert(is_word(value[at + 1]));
    assert(end > at + 1);
    assert forall|k: int| 0 <= k < format.len() implies is_word(#[trigger] format[k]) by {
        assert(format[k] == value[at + 1 + k]);
    }
}

/// The format that the headers of a response give to its body.
pub open spec fn file_format(headers: Seq<(Seq<char>, Seq<char>)>) -> Option<Seq<char>> {
    match content_type_of(headers) {
        Some(value) => format_in(value),
        None => None,
    }
}

/// The name of the one format that is reformatted for reading.
pub open spec fn json_format() -> Seq<char> {
    "json"@
}

/// Whether the body of a response with these headers is to be reformatted.
pub open spec fn wants_pretty_json(headers: Seq<(Seq<char>, Seq<char>)>, pretty: bool) -> bool {
    pretty && file_format(headers) == Some(json_format())
}

/// The body as it is shown: reformatted where that is wanted and the
/// formatter gave a text, else as it was received.
pub open spec fn shown_body(body: Seq<char>, wanted: bool, printed: Option<Seq<char>>) -> Seq<
    char,
> {
    if wanted && printed is Some {
        printed->0
    } else {
        body
    }
}

/// The character of a decimal digit.
pub open spec fn digit(d: int) -> char {
    ((48 + d) as u8) as char
}

/// Whether `text` is written as the transport writes the status with the
/// code `code`: the three digits of the code, a space, and then the reason.
pub open spec fn shows_code(text: Seq<char>, code: u16) -> bool {
    &&& 100 <= code <= 999
    &&& text.len() >= 4
    &&& text[0] == digit(code as int / 100)
    &&& text[1] == digit(code as int / 10 % 10)
    &&& text[2] == digit(code as int % 10)
    &&& text[3] == ' '
}

/// The status code that the transport handed back, if any: that of the
/// response, or the one that a failure carries.
pub open spec fn outcome_code(outcome: Result<TransportResponseView, TransportErrorView>) -> Option<
    u16,
> {
    match outcome {
        Ok(response) => Some(response.status),
        Err(failure) => failure.status,
    }
}

/// Whether a written status is that of the outcome: the text that shows
/// the outcome's code, and none where the outcome has no code.
pub open spec fn status_of_outcome(
    outcome: Result<TransportResponseView, TransportErrorView>,
    status_code: Option<Seq<char>>,
) -> bool {
    match outcome_code(outcome) {
        Some(code) => status_code == Some(status_line(code)) && shows_code(
            status_line(code),
            code,
        ),
        None => status_code is None,
    }
}

/// The fields that a completed send writes. `printed` is what the
/// formatter makes of the received body.
pub open spec fn normalized(
    outcome: Result<TransportResponseView, TransportErrorView>,
    pretty: bool,
    printed: Option<Seq<char>>,
) -> NormalizedView {
    match outcome {
        Ok(response) => NormalizedView {
            status_code: Some(status_line(response.status)),
            body: Some(
                shown_body(
                    response.body,
                    wants_pretty_json(header_pairs(response.headers), pretty),
                    printed,
                ),
            ),
            cookies: Some(cookie_summary(response.cookies)),
            headers: header_pairs(response.headers),
        },
        Err(failure) => NormalizedView {
            status_code: match failure.status {
                Some(code) => Some(status_line(code)),
                None => None,
            },
            body: Some(failure.message),
            cookies: None,
            headers: Seq::empty(),
        },
    }
}

/// The body that the outcome carries, where it is a response.
pub open spec fn received_body(outcome: Result<TransportResponseView, TransportErrorView>) -> Seq<
    char,
> {
    match outcome {
        Ok(response) => response.body,
        Err(_) => Seq::empty(),
    }
}

/// Whether `c` is an ASCII letter, an ASCII digit or `_`.
pub fn is_word_char(c: char) -> (word: bool)
    ensures
        word == is_word(c),
{
    ('a' <= c && c <= 'z') || ('A' <= c && c <= 'Z') || ('0' <= c && c <= '9') || c == '_'
}

/// Whether `a` and `b` are the same character, ASCII letters compared
/// without regard to case.
pub fn is_same_letter(a: char, b: char) -> (same: bool)
    ensures
        same == same_letter(a, b),
{
    a == b || ('A' <= a && a <= 'Z' && a as u32 + 32 == b as u32) || ('A' <= b && b <= 'Z' && b as u32
        + 32 == a as u32)
}

/// Whether two texts are equal, ASCII letters compared without regard to
/// case.
pub fn is_same_name(a: &Vec<char>, b: &Vec<char>) -> (same: bool)
    ensures
        same == same_name(a@, b@),
{
    if a.len() != b.len() {
        return false;
    }
    let mut i: usize = 0;
    while i < a.len()
        invariant
            i <= a.len(),
            a.len() == b.len(),
            forall|k: int| 0 <= k < i ==> same_letter(#[trigger] a@[k], b@[k]),
        decreases a.len() - i,
    {
        if !is_same_letter(a[i], b[i]) {
            return false;
        }
        i += 1;
    }
    true
}

/// The value of the first header named `content-type`, in any case.
fn find_content_type(headers: &Vec<(String, String)>) -> (value: Option<Vec<char>>)
    ensures
        match value {
            Some(chars) => content_type_of(pairs_view(headers@)) == Some(chars@),
            None => content_type_of(pairs_view(headers@)) is None,
        },
{
    let wanted = chars_of("content-type");
    let ghost all = pairs_view(headers@);
    let mut i: usize = 0;
    proof {
        assert(all.skip(0) =~= all);
    }
    while i < headers.len()
        invariant
            i <= headers.len(),
            all == pairs_view(headers@),
            wanted@ == content_type_name(),
            content_type_of(all.skip(i as int)) == content_type_of(all),
        decreases headers.len() - i,
    {
        let name = chars_of(headers[i].0.as_str());
        proof {
            let ahead = all.skip(i as int);
            assert(ahead[0] == all[i as int]);
            assert(ahead.skip(1) =~= all.skip(i + 1));
        }
        if is_same_name(&name, &wanted) {
            return Some(chars_of(headers[i].1.as_str()));
        }
        i += 1;
    }
    None
}

/// The format that a content type names, as `format_in` defines it.
fn find_format(value: &Vec<char>) -> (format: Option<Vec<char>>)
    ensures
        match format {
            Some(chars) => format_in(value@) == Some(chars@),
            None => format_in(value@) is None,
        },
{
    let n = value.len();
    let mut at: usize = 0;
    while at < n
        invariant
            at <= n,
            n == value.len(),
            first_split(value@, at as int) == first_split(value@, 0),
        decreases n - at,
    {
        if at > 0 && n - at > 1 && value[at] == '/' && is_word_char(value[at - 1]) && is_word_char(
            value[at + 1],
        ) {
            let from = at + 1;
            let mut end: usize = from;
            while end < n && is_word_char(value[end])
                invariant
                    from <= end <= n,
                    n == value.len(),
                    word_end(value@, end as int) == word_end(value@, from as int),
                decreases n - end,
            {
                end += 1;
            }
            return Some(slice_of(value, from, end));
        }
        at += 1;
    }
    None
}

/// The format that the headers of a response give to its body: the one
/// that the first `content-type` header names, if there is any.
pub fn find_file_format_in_content_type(headers: &Vec<(String, String)>) -> (format: Option<
    String,
>)
    ensures
        text_view(format) == file_format(pairs_view(headers@)),
{
    match find_content_type(headers) {
        None => None,
        Some(value) => match find_format(&value) {
            None => None,
            Some(chars) => Some(string_of(&chars)),
        },
    }
}

/// Whether the body of a response with these headers is to be reformatted.
pub fn wants_pretty(headers: &Vec<(String, String)>, pretty: bool) -> (wanted: bool)
    ensures
        wanted == wants_pretty_json(pairs_view(headers@), pretty),
{
    if !pretty {
        return false;
    }
    match find_file_format_in_content_type(headers) {
        None => false,
        Some(format) => {
            let found = chars_of(format.as_str());
            let json = chars_of("json");
            same_chars(&found, &json)
        },
    }
}

/// The summary of the cookies, as `cookie_summary` defines it.
pub fn cookies_text(cookies: &Vec<(String, String)>) -> (text: String)
    ensures
        text@ == cookie_summary(pairs_view(cookies@)),
{
    let ghost all = pairs_view(cookies@);
    let mut out: Vec<char> = Vec::new();
    let mut i: usize = 0;
    proof {
        assert(all.take(0) =~= Seq::<(Seq<char>, Seq<char>)>::empty());
    }
    while i < cookies.len()
        invariant
            i <= cookies.len(),
            all == pairs_view(cookies@),
            out@ == cookie_summary(all.take(i as int)),
        decreases cookies.len() - i,
    {
        let ghost before = out@;
        if i > 0 {
            out.push('\n');
        }
        let name = chars_of(cookies[i].0.as_str());
        let value = chars_of(cookies[i].1.as_str());
        push_all(&mut out, &name);
        out.push(':');
        out.push(' ');
        push_all(&mut out, &value);
        proof {
            let now = all.take(i + 1);
            assert(now.drop_last() =~= all.take(i as int));
            assert(now.last() == (name@, value@));
            assert(cookie_line(now.last()) =~= name@.push(':').push(' ') + value@);
            if i > 0 {
                assert(out@ =~= before + seq!['\n'] + cookie_line(now.last()));
            } else {
                assert(out@ =~= cookie_line(now[0]));
            }
        }
        i += 1;
    }
    proof {
        assert(all.take(cookies@.len() as int) =~= all);
    }
    string_of(&out)
}

/// Whether `b` may stand in a header value that is text.
pub fn is_visible_byte(b: u8) -> (visible: bool)
    ensures
        visible == is_visible(b),
{
    (32 <= b && b < 127) || b == 9
}

/// The value of a header as text, as `header_text` defines it.
pub fn decode_header(value: &Vec<u8>) -> (text: String)
    ensures
        text@ == header_text(value@),
{
    let mut chars: Vec<char> = Vec::new();
    let mut i: usize = 0;
    while i < value.len()
        invariant
            i <= value.len(),
            forall|k: int| 0 <= k < i ==> is_visible(#[trigger] value@[k]),
            chars@ == value@.take(i as int).map_values(|b: u8| b as char),
        decreases value.len() - i,
    {
        if !is_visible_byte(value[i]) {
            return String::new();
        }
        chars.push(value[i] as char);
        proof {
            assert(value@.take(i + 1).map_values(|b: u8| b as char) =~= value@.take(
                i as int,
            ).map_values(|b: u8| b as char).push(value@[i as int] as char));
        }
        i += 1;
    }
    proof {
        assert(value@.take(value@.len() as int) =~= value@);
    }
    string_of(&chars)
}

/// The received headers as pairs of texts, in the order of receipt: a
/// value that cannot be decoded becomes the empty text.
pub fn received_headers(headers: Vec<(String, Vec<u8>)>) -> (pairs: Vec<(String, String)>)
    ensures
        pairs_view(pairs@) == header_pairs(received_view(headers@)),
{
    let ghost all = received_view(headers@);
    let ghost wanted = header_pairs(all);
    let mut pairs: Vec<(String, String)> = Vec::new();
    proof {
        assert(pairs_view(pairs@) =~= wanted.take(0));
    }
    for header in it: headers
        invariant
            received_view(it.seq()) == all,
            wanted == header_pairs(all),
            pairs_view(pairs@) == wanted.take(it.index() as int),
    {
        let ghost before = pairs_view(pairs@);
        let (name, value) = header;
        let ghost raw = (name@, value@);
        let text = decode_header(&value);
        proof {
            assert(all[it.index() as int] == raw);
            assert((name@, text@) == header_pair(raw));
        }
        pairs.push((name, text));
        proof {
            assert(pairs_view(pairs@) =~= before.push(header_pair(raw)));
            assert(wanted.take(it.index() + 1) =~= wanted.take(it.index() as int).push(
                header_pair(raw),
            ));
        }
    }
    proof {
        assert(wanted.take(all.len() as int) =~= wanted);
    }
    pairs
}

/// The text of a status.
fn render_status(status: Status) -> (text: String)
    ensures
        text@ == status_line(status@),
        shows_code(text@, status@),
{
    status_text(status.code()).unwrap()
}

/// The body as it is shown, given what the formatter made of it.
pub fn pick_body(body: String, wanted: bool, printed: Option<String>) -> (shown: String)
    ensures
        shown@ == shown_body(body@, wanted, text_view(printed)),
{
    if wanted {
        match printed {
            Some(text) => text,
            None => body,
        }
    } else {
        body
    }
}

/// The fields that a response writes, from its parts.
fn normalize_response(
    response: TransportResponse,
    pretty: bool,
    print: bool,
    given: Option<String>,
) -> (fields: Normalized)
    ensures
        fields@ == normalized(
            Ok(response@),
            pretty,
            if print {
                pretty_json(response.body@)
            } else {
                text_view(given)
            },
        ),
        status_of_outcome(Ok(response@), fields@.status_code),
{
    let TransportResponse { status, headers, cookies, body } = response;
    let headers = received_headers(headers);
    let wanted = wants_pretty(&headers, pretty);
    let printed = if print {
        if wanted {
            pretty_print_json(body.as_str())
        } else {
            None
        }
    } else {
        given
    };
    let summary = cookies_text(&cookies);
    Normalized {
        status_code: Some(render_status(status)),
        body: Some(pick_body(body, wanted, printed)),
        cookies: Some(summary),
        headers,
    }
}

/// The fields that a failure writes: its status where it has one, its
/// message as the body, no cookies and no headers.
fn normalize_failure(failure: TransportError) -> (fields: Normalized)
    ensures
        forall|pretty: bool, printed: Option<Seq<char>>|
            fields@ == #[trigger] normalized(Err(failure@), pretty, printed),
        status_of_outcome(Err(failure@), fields@.status_code),
{
    let TransportError { status, message } = failure;
    let fields = Normalized {
        status_code: match status {
            Some(status) => Some(render_status(status)),
            None => None,
        },
        body: Some(message),
        cookies: None,
        headers: Vec::new(),
    };
    proof {
        assert(fields@.headers =~= Seq::<(Seq<char>, Seq<char>)>::empty());
    }
    fields
}

/// Shapes what the transport handed back into the fields of a result slot,
/// given in `printed` what the formatter makes of the received body. A
/// written status begins with the digits of its code.
pub fn normalize_with(
    outcome: Result<TransportResponse, TransportError>,
    pretty: bool,
    printed: Option<String>,
) -> (fields: Normalized)
    ensures
        fields@ == normalized(outcome_view(outcome), pretty, text_view(printed)),
        status_of_outcome(outcome_view(outcome), fields@.status_code),
{
    match outcome {
        Ok(response) => normalize_response(response, pretty, false, printed),
        Err(failure) => normalize_failure(failure),
    }
}

/// Shapes what the transport handed back into the fields of a result slot.
/// The body of a response is reformatted where `pretty` is set, the
/// response says that it is JSON and the formatter gives a text; in every
/// other case it stays as it was received. A written status begins with
/// the digits of its code.
pub fn normalize(outcome: Result<TransportResponse, TransportError>, pretty: bool) -> (fields:
    Normalized)
    ensures
        fields@ == normalized(
            outcome_view(outcome),
            pretty,
            pretty_json(received_body(outcome_view(outcome))),
        ),
        status_of_outcome(outcome_view(outcome), fields@.status_code),
{
    match outcome {
        Ok(response) => normalize_response(response, pretty, true, None),
        Err(failure) => normalize_failure(failure),
    }
}

} // verus!
