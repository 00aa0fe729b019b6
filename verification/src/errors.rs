//! The uniform failure taxonomy of the client.

use vstd::prelude::*;

verus! {

/// Every way a client operation can fail.
///
/// * `AuthError` — the login endpoint rejected the credentials; carries the
///   server's response body verbatim.
/// * `NotAuthenticated` — a local check found no token before an operation
///   that needs one; raised before any request is built.
/// * `RequestError` — the server answered with a non-2xx status; carries the
///   status code and the raw response body, untouched.
/// * `DecodeError` — a 2xx response body did not decode into the expected
///   shape; carries the raw body for diagnosis.
/// * `TransportError` — the transport failed before a status line was read;
///   carries the transport's own description.
/// * `ValidationError` — a local input was malformed (an unparsable date, a
///   string that cannot travel inside JSON or a URL); raised before any
///   request is built.
#[derive(Debug, Clone, PartialEq, Eq)]
pub enum ApiError {
    AuthError { body: String },
    NotAuthenticated,
    RequestError { status: u16, body: String },
    DecodeError { body: String },
    TransportError { detail: String },
    ValidationError { detail: String },
}

impl ApiError {
    /// The user-facing diagnostic text; the full captured body is preserved.
    pub fn message(&self) -> (r: String)
        ensures
            self matches ApiError::RequestError { status, body } ==> r@ == "API request failed: "@
                + crate::numtext::dec_of(status as nat) + " - "@ + body@,
            self matches ApiError::AuthError { body } ==> r@ == "Login failed: "@ + body@,
            self matches ApiError::NotAuthenticated ==> r@ == "Not logged in. Please run `lic login` first."@,
            self matches ApiError::DecodeError { body } ==> r@ == "Failed to parse response: "@ + body@,
            self matches ApiError::TransportError { detail } ==> r@ == "Request failed: "@ + detail@,
            self matches ApiError::ValidationError { detail } ==> r@ == "Invalid input: "@ + detail@,
    {
        match self {
            ApiError::AuthError { body } => {
                let mut m = String::new();
                m.append("Login failed: ");
                m.append(body.as_str());
                m
            },
            ApiError::NotAuthenticated => String::from_str("Not logged in. Please run `lic login` first."),
            ApiError::RequestError { status, body } => {
                let mut m = String::new();
                m.append("API request failed: ");
                m.append(crate::numtext::fmt_u64(*status as u64).as_str());
                m.append(" - ");
                m.append(body.as_str());
                m
            },
            ApiError::DecodeError { body } => {
                let mut m = String::new();
                m.append("Failed to parse response: ");
                m.append(body.as_str());
                m
            },
            ApiError::TransportError { detail } => {
                let mut m = String::new();
                m.append("Request failed: ");
                m.append(detail.as_str());
                m
            },
            ApiError::ValidationError { detail } => {
                let mut m = String::new();
                m.append("Invalid input: ");
                m.append(detail.as_str());
                m
            },
        }
    }
}

} // verus!
