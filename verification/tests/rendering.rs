use oauth_callback::html::get_error_html;
use oauth_callback::html::get_success_html;
use oauth_callback::html::html_escape;
use oauth_callback::respond::build_response;
use oauth_callback::respond::handle_request;

#[test]
fn success_page_announces_success() {
    let page = get_success_html();
    assert!(page.contains("Authentication Successful"));
    assert!(page.starts_with("<!DOCTYPE html>"));
    assert!(page.ends_with("</html>"));
}

#[test]
fn error_page_shows_the_message() {
    let page = get_error_html("access_denied");
    assert!(page.contains("Authentication Failed"));
    assert!(page.contains("access_denied"));
}

#[test]
fn error_page_escapes_markup_in_the_message() {
    let page = get_error_html("<script>alert('x')</script>");
    assert!(!page.contains("<script>"));
    assert!(page.contains("&lt;script&gt;"));
    assert!(page.contains("&#x27;x&#x27;"));
}

#[test]
fn escape_rewrites_the_five_special_characters() {
    assert_eq!(html_escape("a&b"), "a&amp;b");
    assert_eq!(html_escape("<>"), "&lt;&gt;");
    assert_eq!(html_escape("\"q\""), "&quot;q&quot;");
    assert_eq!(html_escape("it's"), "it&#x27;s");
    assert_eq!(html_escape("plain text"), "plain text");
}

#[test]
fn response_carries_status_headers_and_body() {
    let r = build_response("200 OK", "<p>hi</p>");
    let expected = format!(
        "HTTP/1.1 200 OK\r\nContent-Type: text/html; charset=utf-8\r\nContent-Length: {}\r\nConnection: close\r\n\r\n<p>hi</p>",
        "<p>hi</p>".len()
    );
    assert_eq!(r, expected);
}

#[test]
fn empty_body_has_content_length_zero() {
    let r = build_response("200 OK", "");
    assert!(r.contains("Content-Length: 0\r\n"));
    assert!(r.ends_with("\r\n\r\n"));
}

#[test]
fn content_length_counts_bytes_not_characters() {
    let body = "caf\u{e9}";
    assert_eq!(body.len(), 5);
    let r = build_response("200 OK", body);
    assert!(r.contains("Content-Length: 5\r\n"));
}

#[test]
fn successful_callback_gets_ok_response_with_success_page() {
    let (outcome, response) = handle_request("GET /cb?code=ABC123 HTTP/1.1\r\n\r\n");
    assert_eq!(outcome.code.as_deref(), Some("ABC123"));
    assert_eq!(outcome.error, None);
    assert_eq!(outcome.error_description, None);
    assert!(response.starts_with("HTTP/1.1 200 OK\r\n"));
    assert!(response.contains("Content-Type: text/html; charset=utf-8"));
    assert!(response.contains("Connection: close"));
    let body = get_success_html();
    assert!(response.ends_with(&body));
    assert!(response.contains(&format!("Content-Length: {}\r\n", body.len())));
    assert!(!response.contains("ABC123"));
}

#[test]
fn failed_callback_gets_bad_request_with_the_error() {
    let (outcome, response) = handle_request(
        "GET /cb?error=access_denied&error_description=User%20cancelled HTTP/1.1\r\n\r\n",
    );
    assert_eq!(outcome.error.as_deref(), Some("access_denied"));
    assert_eq!(outcome.error_description.as_deref(), Some("User cancelled"));
    assert_eq!(outcome.code, None);
    assert!(response.starts_with("HTTP/1.1 400 Bad Request\r\n"));
    assert!(response.contains("access_denied"));
}

#[test]
fn query_without_known_keys_gets_unknown_error_page() {
    let (outcome, response) = handle_request("GET /cb?state=1 HTTP/1.1\r\n\r\n");
    assert_eq!(outcome.code, None);
    assert_eq!(outcome.error, None);
    assert_eq!(outcome.error_description, None);
    assert!(response.starts_with("HTTP/1.1 400 Bad Request\r\n"));
    assert!(response.contains("Unknown error"));
}

#[test]
fn malformed_callback_gets_bad_request_with_diagnostic() {
    let (outcome, response) = handle_request("GET /cb HTTP/1.1\r\n\r\n");
    assert_eq!(outcome.error.as_deref(), Some("No query parameters in callback"));
    assert!(response.starts_with("HTTP/1.1 400 Bad Request\r\n"));
    assert!(response.contains("No query parameters in callback"));
}
