//! The calls into other crates and into the parts of std that have no
//! specification. Nothing in this file is proved: each function states what
//! is taken on trust about the code it calls.

use vstd::prelude::*;
use crate::environment::pairs_view;
use crate::limits::{text_in_reach, url_in_reach};
use crate::request::text_view;
use crate::response::shows_code;

verus! {

/// What `reqwest::Url::parse_with_params` makes of a URL text and query
/// pairs: the serialised URL, or `None` where the text is no absolute URL.
pub uninterp spec fn url_with_params(
    url: Seq<char>,
    params: Seq<(Seq<char>, Seq<char>)>,
) -> Option<Seq<char>>;

/// Whether `reqwest::Proxy::http` takes the text as the address of a proxy.
pub uninterp spec fn http_proxy_accepted(url: Seq<char>) -> bool;

/// Whether `reqwest::Proxy::https` takes the text as the address of a proxy.
pub uninterp spec fn https_proxy_accepted(url: Seq<char>) -> bool;

/// What `jsonxf::pretty_print` makes of a text: the reformatted text, or
/// `None` where it reports an error.
pub uninterp spec fn pretty_json(body: Seq<char>) -> Option<Seq<char>>;

/// How `reqwest::StatusCode` writes the status with the code `code`: the
/// number and the reason that goes with it.
pub uninterp spec fn status_line(code: u16) -> Seq<char>;

/// How std's `Debug` for `Duration` writes a duration of `nanos`
/// nanoseconds.
pub uninterp spec fn duration_text(nanos: u64) -> Seq<char>;

/// Calls `reqwest::Url::parse_with_params`, which parses `url` and then
/// appends `params` to its query. Trusted: the outcome is a function of the
/// two arguments alone; on success the URL is handed back as its text.
/// The parser panics where a URL outgrows the 32 bits in which it counts
/// positions, so the text and the pairs must be within the limit.
#[verifier::external_body]
pub(crate) fn parse_url_with_params(url: &str, params: &Vec<(String, String)>) -> (parsed: Option<
    String,
>)
    requires
        url_in_reach(url@, pairs_view(params@)),
    ensures
        text_view(parsed) == url_with_params(url@, pairs_view(params@)),
{
    match reqwest::Url::parse_with_params(url, params) {
        Ok(parsed) => Some(parsed.into()),
        Err(_) => None,
    }
}

/// Calls `reqwest::Proxy::http` and tells whether it returned a proxy.
/// Trusted: the answer is a function of the text alone. The call parses
/// the text as a URL and may set its port, which panics where the URL
/// outgrows 32 bits of positions, so the text must be within the limit.
#[verifier::external_body]
pub(crate) fn http_proxy_is_valid(url: &str) -> (valid: bool)
    requires
        text_in_reach(url@),
    ensures
        valid == http_proxy_accepted(url@),
{
    reqwest::Proxy::http(url).is_ok()
}

/// Calls `reqwest::Proxy::https` and tells whether it returned a proxy.
/// Trusted: the answer is a function of the text alone. The call parses
/// the text as a URL and may set its port, which panics where the URL
/// outgrows 32 bits of positions, so the text must be within the limit.
#[verifier::external_body]
pub(crate) fn https_proxy_is_valid(url: &str) -> (valid: bool)
    requires
        text_in_reach(url@),
    ensures
        valid == https_proxy_accepted(url@),
{
    reqwest::Proxy::https(url).is_ok()
}

/// Calls `jsonxf::pretty_print`. Trusted: the outcome is a function of the
/// text alone; the error's message is dropped.
#[verifier::external_body]
pub(crate) fn pretty_print_json(body: &str) -> (printed: Option<String>)
    ensures
        text_view(printed) == pretty_json(body@),
{
    match jsonxf::pretty_print(body) {
        Ok(printed) => Some(printed),
        Err(_) => None,
    }
}

/// Calls `reqwest::StatusCode::from_u16` and writes the status with its
/// `Display`. Trusted: there is a status exactly for the codes from 100 to
/// 999; its text is a function of the code alone, and is the code as a
/// decimal number, a space, and the reason.
#[verifier::external_body]
pub(crate) fn status_text(code: u16) -> (text: Option<String>)
    ensures
        text_view(text) == if 100 <= code <= 999 {
            Some(status_line(code))
        } else {
            None
        },
        text matches Some(line) ==> shows_code(line@, code),
{
    match reqwest::StatusCode::from_u16(code) {
        Ok(status) => Some(status.to_string()),
        Err(_) => None,
    }
}

/// Formats `std::time::Duration::from_nanos(nanos)` with `{:?}`. Trusted:
/// the text is a function of the number alone.
#[verifier::external_body]
pub(crate) fn debug_duration(nanos: u64) -> (text: String)
    ensures
        text@ == duration_text(nanos),
{
    format!("{:?}", std::time::Duration::from_nanos(nanos))
}

/// std's `String::push`. Trusted: the string is afterwards what it was,
/// with the character appended.
pub assume_specification[ String::push ](text: &mut String, c: char)
    ensures
        final(text)@ == old(text)@.push(c),
;

} // verus!
