//! The closed set of failures that every operation of the client reports.

use vstd::prelude::*;

verus! {

/// The transport's own error type, carried through unchanged.
#[verifier::external_type_specification]
#[verifier::external_body]
pub struct ExReqwestError(reqwest::Error);

/// The JSON codec's own error type, carried through unchanged.
#[verifier::external_type_specification]
#[verifier::external_body]
pub struct ExSerdeJsonError(serde_json::Error);

/// The URL parser's own error type, carried through unchanged.
#[verifier::external_type_specification]
#[verifier::external_body]
pub struct ExUrlParseError(url::ParseError);

/// The error type of every fallible operation of the client.
#[derive(Debug)]
pub enum JulesError {
    /// Sending the request failed in the transport (connection, TLS, timeout).
    Http(reqwest::Error),
    /// A body could not be converted to or from JSON.
    Serialization(serde_json::Error),
    /// The service replied with a status outside the success family;
    /// `message` is the raw body text, or empty when it could not be read.
    Api { status: u16, message: String },
    /// The base address, or a path joined to it, is not a well-formed URL.
    Url(url::ParseError),
    /// A resource name does not have the `collection/id` shape.
    InvalidResourceName(String),
}

impl From<reqwest::Error> for JulesError {
    fn from(e: reqwest::Error) -> (r: JulesError) {
        JulesError::Http(e)
    }
}

impl vstd::std_specs::convert::FromSpecImpl<reqwest::Error> for JulesError {
    open spec fn obeys_from_spec() -> bool {
        true
    }

    open spec fn from_spec(e: reqwest::Error) -> JulesError {
        JulesError::Http(e)
    }
}

impl From<serde_json::Error> for JulesError {
    fn from(e: serde_json::Error) -> (r: JulesError) {
        JulesError::Serialization(e)
    }
}

impl vstd::std_specs::convert::FromSpecImpl<serde_json::Error> for JulesError {
    open spec fn obeys_from_spec() -> bool {
        true
    }

    open spec fn from_spec(e: serde_json::Error) -> JulesError {
        JulesError::Serialization(e)
    }
}

impl From<url::ParseError> for JulesError {
    fn from(e: url::ParseError) -> (r: JulesError) {
        JulesError::Url(e)
    }
}

impl vstd::std_specs::convert::FromSpecImpl<url::ParseError> for JulesError {
    open spec fn obeys_from_spec() -> bool {
        true
    }

    open spec fn from_spec(e: url::ParseError) -> JulesError {
        JulesError::Url(e)
    }
}

} // verus!
