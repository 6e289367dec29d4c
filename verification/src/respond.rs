//! The single HTTP response written back over the redirect's connection:
//! a `200 OK` carrying the success page when the redirect delivered an
//! authorization code, else a `400 Bad Request` carrying the error page.

use vstd::prelude::*;
use vstd::string::StringExecFns;
use vstd::utf8::encode_utf8;

use crate::html::error_html_spec;
use crate::html::get_error_html;
use crate::html::get_success_html;
use crate::html::success_html_spec;
use crate::parse::parse_oauth_callback;
use crate::parse::parse_spec;
use crate::text::dec_spec;
use crate::text::u64_to_string;
use crate::OAuthCallbackResult;
use crate::OutcomeModel;

verus! {

/// The body's length in bytes under UTF-8, as the machine measures it.
pub open spec fn body_byte_len(body: Seq<char>) -> nat {
    (encode_utf8(body).len() as usize) as nat
}

/// A full HTTP/1.1 response: status line, the fixed headers with the body's
/// byte length, a blank line, and the body.
pub open spec fn http_response_spec(status: Seq<char>, body: Seq<char>) -> Seq<char> {
    "HTTP/1.1 "@ + status + "\r\nContent-Type: text/html; charset=utf-8\r\nContent-Length: "@
        + dec_spec(body_byte_len(body)) + "\r\nConnection: close\r\n\r\n"@ + body
}

/// Builds the response for `status` and `body`, following
/// `http_response_spec`.
pub fn build_response(status: &str, body: &str) -> (r: String)
    ensures
        r@ == http_response_spec(status@, body@),
{
    let mut r: String = "HTTP/1.1 ".to_owned();
    r.append(status);
    r.append("\r\nContent-Type: text/html; charset=utf-8\r\nContent-Length: ");
    let n: usize = body.len();
    let len_str: String = u64_to_string(n as u64);
    r.append(len_str.as_str());
    r.append("\r\nConnection: close\r\n\r\n");
    r.append(body);
    r
}

/// The diagnostic shown when a failed outcome carries no error message.
pub open spec fn error_msg_of(m: OutcomeModel) -> Seq<char> {
    match m.error {
        Some(e) => e,
        None => "Unknown error"@,
    }
}

/// The response owed to the browser for the outcome `m`: success page under
/// `200 OK` when a code is present, else the error page under
/// `400 Bad Request`.
pub open spec fn response_for(m: OutcomeModel) -> Seq<char> {
    if m.code is Some {
        http_response_spec("200 OK"@, success_html_spec())
    } else {
        http_response_spec("400 Bad Request"@, error_html_spec(error_msg_of(m)))
    }
}

/// The success response is one fixed page: it is the same for any two
/// successful outcomes, so the authorization code itself never reaches the
/// browser's rendered page or history beyond the URL bar.
pub proof fn lemma_success_response_reveals_nothing(m1: OutcomeModel, m2: OutcomeModel)
    requires
        m1.code is Some,
        m2.code is Some,
    ensures
        response_for(m1) == response_for(m2),
{
}

/// Handles one successfully read connection: parses the raw request into
/// the outcome to deliver, and renders the response to write back.
pub fn handle_request(request: &str) -> (r: (OAuthCallbackResult, String))
    ensures
        r.0.model() == parse_spec(request@),
        r.1@ == response_for(parse_spec(request@)),
{
    let outcome: OAuthCallbackResult = parse_oauth_callback(request);
    let response: String = if outcome.code.is_some() {
        let body: String = get_success_html();
        build_response("200 OK", body.as_str())
    } else {
        let body: String = match &outcome.error {
            Some(e) => get_error_html(e.as_str()),
            None => get_error_html("Unknown error"),
        };
        build_response("400 Bad Request", body.as_str())
    };
    (outcome, response)
}

} // verus!
