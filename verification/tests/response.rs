use send::response::{
    cookies_text, decode_header, find_file_format_in_content_type, is_same_letter, is_same_name,
    is_visible_byte, is_word_char, normalize, normalize_with, pick_body, received_headers,
    wants_pretty, Normalized, Status, TransportError, TransportResponse,
};

fn pair(key: &str, value: &str) -> (String, String) {
    (key.to_string(), value.to_string())
}

fn format_of(name: &str, value: &str) -> Option<String> {
    find_file_format_in_content_type(&vec![pair(name, value)])
}

fn response(content_type: &str, body: &str) -> TransportResponse {
    TransportResponse {
        status: Status::new(200).unwrap(),
        headers: vec![("content-type".to_string(), content_type.as_bytes().to_vec())],
        cookies: Vec::new(),
        body: body.to_string(),
    }
}

#[test]
fn the_format_is_the_word_behind_the_slash() {
    assert_eq!(format_of("content-type", "application/json"), Some("json".to_string()));
    assert_eq!(
        format_of("content-type", "text/html; charset=utf-8"),
        Some("html".to_string())
    );
    assert_eq!(format_of("content-type", "application/ld+json"), Some("ld".to_string()));
    assert_eq!(format_of("content-type", "image/svg+xml"), Some("svg".to_string()));
    assert_eq!(format_of("content-type", "a/b_1/c"), Some("b_1".to_string()));
    assert_eq!(format_of("content-type", "  text/plain  "), Some("plain".to_string()));
}

#[test]
fn a_value_without_a_media_type_has_no_format() {
    assert_eq!(format_of("content-type", ""), None);
    assert_eq!(format_of("content-type", "json"), None);
    assert_eq!(format_of("content-type", "/json"), None);
    assert_eq!(format_of("content-type", "application/"), None);
    assert_eq!(format_of("content-type", "application /json"), None);
    assert_eq!(format_of("content-type", "application/ json"), None);
    assert_eq!(format_of("content-type", "/"), None);
}

#[test]
fn the_first_slash_between_words_counts() {
    assert_eq!(format_of("content-type", "-/x a/b c/d"), Some("b".to_string()));
    assert_eq!(format_of("content-type", "//a/b"), Some("b".to_string()));
}

#[test]
fn the_header_name_is_matched_in_any_case() {
    assert_eq!(format_of("Content-Type", "application/json"), Some("json".to_string()));
    assert_eq!(format_of("CONTENT-TYPE", "application/json"), Some("json".to_string()));
    assert_eq!(format_of("content_type", "application/json"), None);
    assert_eq!(format_of("content-type ", "application/json"), None);
    assert_eq!(format_of("x-content-type", "application/json"), None);
}

#[test]
fn the_first_content_type_header_decides() {
    let headers = vec![
        pair("date", "text/plain"),
        pair("Content-Type", "text/csv"),
        pair("content-type", "application/json"),
    ];
    assert_eq!(find_file_format_in_content_type(&headers), Some("csv".to_string()));
    assert_eq!(find_file_format_in_content_type(&Vec::new()), None);
    assert_eq!(find_file_format_in_content_type(&vec![pair("date", "a/b")]), None);
    // a first header without a format hides a later one
    let hidden = vec![pair("content-type", "unknown"), pair("content-type", "text/csv")];
    assert_eq!(find_file_format_in_content_type(&hidden), None);
}

#[test]
fn word_characters_and_letters() {
    for c in ['a', 'z', 'A', 'Z', '0', '9', '_', 'm', 'Q', '5'] {
        assert!(is_word_char(c), "{:?}", c);
    }
    for c in ['-', '/', ' ', '+', '.', ';', 'é', '`', '{', '@', '[', ':'] {
        assert!(!is_word_char(c), "{:?}", c);
    }
    assert!(is_same_letter('a', 'A'));
    assert!(is_same_letter('Z', 'z'));
    assert!(is_same_letter('-', '-'));
    assert!(!is_same_letter('a', 'b'));
    assert!(!is_same_letter('@', '`'));
    assert!(!is_same_letter('[', '{'));
    assert!(!is_same_letter('0', 'P'));
    let a: Vec<char> = "Content-Type".chars().collect();
    let b: Vec<char> = "content-type".chars().collect();
    let c: Vec<char> = "content-typ".chars().collect();
    assert!(is_same_name(&a, &b));
    assert!(!is_same_name(&a, &c));
    assert!(is_same_name(&Vec::new(), &Vec::new()));
}

#[test]
fn only_json_is_reformatted() {
    assert!(wants_pretty(&vec![pair("content-type", "application/json")], true));
    assert!(wants_pretty(&vec![pair("content-type", "text/json; charset=utf-8")], true));
    assert!(!wants_pretty(&vec![pair("content-type", "application/json")], false));
    assert!(!wants_pretty(&vec![pair("content-type", "application/xml")], true));
    assert!(!wants_pretty(&vec![pair("content-type", "application/JSON")], true));
    assert!(!wants_pretty(&vec![pair("content-type", "application/jsonp")], true));
    assert!(!wants_pretty(&Vec::new(), true));
}

#[test]
fn cookies_are_summarised_line_by_line() {
    assert_eq!(cookies_text(&Vec::new()), "");
    assert_eq!(cookies_text(&vec![pair("sid", "abc")]), "sid: abc");
    assert_eq!(
        cookies_text(&vec![pair("sid", "abc"), pair("theme", "dark"), pair("", "")]),
        "sid: abc\ntheme: dark\n: "
    );
}

#[test]
fn a_status_has_three_digits() {
    assert_eq!(Status::new(99), None);
    assert_eq!(Status::new(0), None);
    assert_eq!(Status::new(1000), None);
    assert_eq!(Status::new(u16::MAX), None);
    assert_eq!(Status::new(100).unwrap().code(), 100);
    assert_eq!(Status::new(404).unwrap().code(), 404);
    assert_eq!(Status::new(999).unwrap().code(), 999);
    assert_eq!(Status::new(200), Status::new(200));
    assert_ne!(Status::new(200), Status::new(201));
}

#[test]
fn header_values_are_decoded_or_empty() {
    assert_eq!(decode_header(&b"nginx/1.25".to_vec()), "nginx/1.25");
    assert_eq!(decode_header(&b"a b\tc ~!".to_vec()), "a b\tc ~!");
    assert_eq!(decode_header(&Vec::new()), "");
    assert_eq!(decode_header(&vec![b'a', 0x80]), "");
    assert_eq!(decode_header(&vec![0xff, b'a']), "");
    assert_eq!(decode_header(&"héllo".as_bytes().to_vec()), "");
    assert_eq!(decode_header(&vec![b'a', 127]), "");
    assert_eq!(decode_header(&vec![b'a', 31, b'b']), "");
    assert_eq!(decode_header(&vec![b'a', b'\n']), "");
    assert_eq!(decode_header(&vec![0]), "");
}

#[test]
fn visible_bytes() {
    for b in 0..=255u8 {
        let expected = (32..127).contains(&b) || b == b'\t';
        assert_eq!(is_visible_byte(b), expected, "byte {}", b);
    }
}

#[test]
fn decoding_agrees_with_the_transport() {
    for b in 0..=255u8 {
        let bytes = vec![b'a', b, b'z'];
        if let Ok(value) = reqwest::header::HeaderValue::from_bytes(&bytes) {
            assert_eq!(decode_header(&bytes), value.to_str().unwrap_or(""), "byte {}", b);
        }
    }
}

#[test]
fn headers_without_text_get_the_empty_value() {
    let headers = vec![
        ("server".to_string(), b"nginx".to_vec()),
        ("x-raw".to_string(), vec![0xc3, 0x28]),
        ("server".to_string(), Vec::new()),
    ];
    assert_eq!(
        received_headers(headers),
        vec![pair("server", "nginx"), pair("x-raw", ""), pair("server", "")]
    );
    assert!(received_headers(Vec::new()).is_empty());
}

#[test]
fn statuses_are_written_with_their_reason() {
    let line = |code: u16| {
        let mut r = response("text/plain", "");
        r.status = Status::new(code).unwrap();
        normalize(Ok(r), false).status_code.unwrap()
    };
    assert_eq!(line(200), "200 OK");
    assert_eq!(line(404), "404 Not Found");
    assert_eq!(line(500), "500 Internal Server Error");
    assert_eq!(line(418), "418 I'm a teapot");
    assert_eq!(line(299), "299 <unknown status code>");
    assert_eq!(line(999), "999 <unknown status code>");
    for code in 100..=999u16 {
        let text = line(code);
        assert_eq!(text, reqwest::StatusCode::from_u16(code).unwrap().to_string());
        // the digits of the code, a space, and the reason
        assert_eq!(&text[..4], format!("{} ", code));
        assert!(text.len() > 4);
        assert_ne!(text, "INVALID URL");
        assert_ne!(text, "COULD NOT OPEN FILE");
    }
}

#[test]
fn the_shown_body_prefers_the_formatted_text() {
    let body = || "raw".to_string();
    assert_eq!(pick_body(body(), true, Some("pretty".to_string())), "pretty");
    assert_eq!(pick_body(body(), true, None), "raw");
    assert_eq!(pick_body(body(), false, Some("pretty".to_string())), "raw");
    assert_eq!(pick_body(body(), false, None), "raw");
}

#[test]
fn a_response_is_normalized() {
    let response = TransportResponse {
        status: Status::new(201).unwrap(),
        headers: vec![
            ("content-type".to_string(), b"text/plain".to_vec()),
            ("x-bin".to_string(), vec![0xfe]),
        ],
        cookies: vec![pair("a", "1"), pair("b", "2")],
        body: "hello".to_string(),
    };
    assert_eq!(
        normalize(Ok(response), true),
        Normalized {
            status_code: Some("201 Created".to_string()),
            body: Some("hello".to_string()),
            cookies: Some("a: 1\nb: 2".to_string()),
            headers: vec![pair("content-type", "text/plain"), pair("x-bin", "")],
        }
    );
}

#[test]
fn a_response_without_cookies_has_the_empty_summary() {
    let fields = normalize(Ok(response("text/plain", "x")), false);
    assert_eq!(fields.cookies, Some(String::new()));
}

#[test]
fn a_json_body_is_pretty_printed() {
    let fields = normalize(Ok(response("application/json", "{\"a\":1,\"b\":2}")), true);
    assert_eq!(fields.body, Some("{\n  \"a\": 1,\n  \"b\": 2\n}".to_string()));
    let nested = normalize(
        Ok(response("application/json", "{\"empty\":{},\n\n\n\n\n\"one\":[1]}")),
        true,
    );
    assert_eq!(
        nested.body,
        Some("{\n  \"empty\": {},\n  \"one\": [\n    1\n  ]\n}".to_string())
    );
}

#[test]
fn a_json_body_stays_raw_when_not_asked_for() {
    let fields = normalize(Ok(response("application/json", "{\"a\":1}")), false);
    assert_eq!(fields.body, Some("{\"a\":1}".to_string()));
    let other = normalize(Ok(response("text/html", "{\"a\":1}")), true);
    assert_eq!(other.body, Some("{\"a\":1}".to_string()));
}

#[test]
fn pretty_printing_is_idempotent() {
    let once = normalize(Ok(response("application/json", "{\"a\":[1,2,{\"b\":\"c d\"}],\"e\":null}")), true)
        .body
        .unwrap();
    let twice = normalize(Ok(response("application/json", &once)), true).body.unwrap();
    assert_eq!(once, twice);
    // the same value: both minimize to the same text
    assert_eq!(jsonxf::minimize(&twice).unwrap(), "{\"a\":[1,2,{\"b\":\"c d\"}],\"e\":null}");
    assert_eq!(jsonxf::minimize(&once).unwrap(), jsonxf::minimize(&twice).unwrap());
}

#[test]
fn a_given_formatting_is_used_or_not() {
    let fields =
        normalize_with(Ok(response("application/json", "{}")), true, Some("PRINTED".to_string()));
    assert_eq!(fields.body, Some("PRINTED".to_string()));
    let failed = normalize_with(Ok(response("application/json", "{oops")), true, None);
    assert_eq!(failed.body, Some("{oops".to_string()));
    let unwanted =
        normalize_with(Ok(response("text/plain", "{}")), true, Some("PRINTED".to_string()));
    assert_eq!(unwanted.body, Some("{}".to_string()));
}

#[test]
fn a_failure_without_status_has_none() {
    let failure = TransportError {
        status: None,
        message: "error sending request for url (http://unreachable.invalid/)".to_string(),
    };
    assert_eq!(
        normalize(Err(failure), true),
        Normalized {
            status_code: None,
            body: Some("error sending request for url (http://unreachable.invalid/)".to_string()),
            cookies: None,
            headers: Vec::new(),
        }
    );
}

#[test]
fn a_failure_with_status_keeps_it() {
    let failure = TransportError {
        status: Status::new(404),
        message: "HTTP status client error (404 Not Found)".to_string(),
    };
    let fields = normalize_with(Err(failure), false, Some("ignored".to_string()));
    assert_eq!(fields.status_code, Some("404 Not Found".to_string()));
    assert_eq!(fields.body, Some("HTTP status client error (404 Not Found)".to_string()));
    assert_eq!(fields.cookies, None);
    assert!(fields.headers.is_empty());
}
