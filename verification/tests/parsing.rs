use oauth_callback::decode::urlencoding_decode;
use oauth_callback::decode::urlencoding_encode;
use oauth_callback::parse::parse_oauth_callback;

#[test]
fn code_parameter_is_extracted_and_decoded() {
    let r = parse_oauth_callback("GET /callback?code=ABC123 HTTP/1.1\r\nHost: localhost\r\n\r\n");
    assert_eq!(r.code.as_deref(), Some("ABC123"));
    assert_eq!(r.error, None);
    assert_eq!(r.error_description, None);
}

#[test]
fn error_parameter_is_extracted_and_decoded() {
    let r = parse_oauth_callback(
        "GET /cb?error=access_denied&error_description=User%20cancelled HTTP/1.1\r\n\r\n",
    );
    assert_eq!(r.code, None);
    assert_eq!(r.error.as_deref(), Some("access_denied"));
    assert_eq!(r.error_description.as_deref(), Some("User cancelled"));
}

#[test]
fn target_without_query_yields_diagnostic() {
    let r = parse_oauth_callback("GET /callback HTTP/1.1\r\n\r\n");
    assert_eq!(r.code, None);
    assert_eq!(r.error.as_deref(), Some("No query parameters in callback"));
    assert_eq!(r.error_description, None);
}

#[test]
fn single_token_line_is_invalid() {
    let r = parse_oauth_callback("GET\r\n\r\n");
    assert_eq!(r.code, None);
    assert_eq!(r.error.as_deref(), Some("Invalid HTTP request"));
    assert_eq!(r.error_description, None);
}

#[test]
fn empty_request_is_invalid() {
    let r = parse_oauth_callback("");
    assert_eq!(r.code, None);
    assert_eq!(r.error.as_deref(), Some("Invalid HTTP request"));
}

#[test]
fn empty_query_yields_empty_outcome() {
    let r = parse_oauth_callback("GET /cb? HTTP/1.1\r\n\r\n");
    assert_eq!(r.code, None);
    assert_eq!(r.error, None);
    assert_eq!(r.error_description, None);
}

#[test]
fn tabs_separate_tokens_too() {
    let r = parse_oauth_callback("GET\t/cb?code=x\tHTTP/1.1\r\n\r\n");
    assert_eq!(r.code.as_deref(), Some("x"));
}

#[test]
fn last_duplicate_key_wins() {
    let r = parse_oauth_callback("GET /cb?code=first&code=second HTTP/1.1\r\n\r\n");
    assert_eq!(r.code.as_deref(), Some("second"));
}

#[test]
fn key_without_equals_has_empty_value() {
    let r = parse_oauth_callback("GET /cb?code HTTP/1.1\r\n\r\n");
    assert_eq!(r.code.as_deref(), Some(""));
    assert_eq!(r.error, None);
}

#[test]
fn unrelated_parameters_are_ignored() {
    let r = parse_oauth_callback("GET /cb?state=xyz&code=ok&scope=all HTTP/1.1\r\n\r\n");
    assert_eq!(r.code.as_deref(), Some("ok"));
    assert_eq!(r.error, None);
    assert_eq!(r.error_description, None);
}

#[test]
fn plus_in_value_becomes_space() {
    let r = parse_oauth_callback("GET /cb?code=a+b HTTP/1.1\r\n\r\n");
    assert_eq!(r.code.as_deref(), Some("a b"));
}

#[test]
fn percent_escape_in_value_is_decoded() {
    let r = parse_oauth_callback("GET /cb?code=%41%42 HTTP/1.1\r\n\r\n");
    assert_eq!(r.code.as_deref(), Some("AB"));
}

#[test]
fn decode_handles_hex_escapes() {
    assert_eq!(urlencoding_decode("%20"), " ");
    assert_eq!(urlencoding_decode("%41"), "A");
    assert_eq!(urlencoding_decode("a%2Fb"), "a/b");
    assert_eq!(urlencoding_decode("a%2fb"), "a/b");
}

#[test]
fn decode_turns_plus_into_space() {
    assert_eq!(urlencoding_decode("a+b+c"), "a b c");
}

#[test]
fn decode_keeps_incomplete_trailing_escape() {
    assert_eq!(urlencoding_decode("%2"), "%2");
    assert_eq!(urlencoding_decode("%"), "%");
    assert_eq!(urlencoding_decode("abc%"), "abc%");
}

#[test]
fn decode_keeps_non_hex_escape_verbatim() {
    assert_eq!(urlencoding_decode("%zz"), "%zz");
    assert_eq!(urlencoding_decode("%4g"), "%4g");
}

#[test]
fn encode_then_decode_returns_original() {
    let samples = [
        "plain",
        "a b c",
        "100% sure",
        "a+b=c&d",
        "~!@#$%^&*()_+-=[]{}|;':\",./<>?",
        "",
    ];
    for s in samples {
        assert_eq!(urlencoding_decode(&urlencoding_encode(s)), s);
    }
}

#[test]
fn encode_escapes_space_percent_and_plus() {
    assert_eq!(urlencoding_encode("a b"), "a%20b");
    assert_eq!(urlencoding_encode("50%"), "50%25");
    assert_eq!(urlencoding_encode("a+b"), "a%2Bb");
}
