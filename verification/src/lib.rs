//! Capture of a single browser redirect during an authorization-code flow.
//!
//! A desktop application that wants an authorization code opens a listener on
//! an ephemeral loopback port, sends the user's browser there, and captures
//! the one redirect request that comes back.  This crate holds the verified
//! core of that flow: parsing the redirect's query parameters, percent
//! decoding, rendering the pages shown in the browser, building the HTTP
//! response, and the session state machine that guarantees a single delivery
//! and release of the socket.  The sockets themselves, the async runtime and
//! the port probe live outside the library.

use vstd::prelude::*;

pub mod decode;
pub mod html;
pub mod parse;
pub mod respond;
pub mod session;
pub mod text;

verus! {

/// Result of one capture attempt: the authorization outcome carried by the
/// redirect's query string.
#[derive(Debug, Clone)]
pub struct OAuthCallbackResult {
    pub code: Option<String>,
    pub error: Option<String>,
    pub error_description: Option<String>,
}

impl OAuthCallbackResult {
    /// Mathematical view: each field as an optional sequence of characters.
    pub open spec fn model(self) -> OutcomeModel {
        OutcomeModel {
            code: match self.code {
                Some(s) => Some(s@),
                None => None,
            },
            error: match self.error {
                Some(s) => Some(s@),
                None => None,
            },
            error_description: match self.error_description {
                Some(s) => Some(s@),
                None => None,
            },
        }
    }
}

/// Spec-level counterpart of `OAuthCallbackResult`.
pub ghost struct OutcomeModel {
    pub code: Option<Seq<char>>,
    pub error: Option<Seq<char>>,
    pub error_description: Option<Seq<char>>,
}

} // verus!
