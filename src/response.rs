//! Classification of the service's responses.

use vstd::prelude::*;
use crate::error::JulesError;

verus! {

/// Whether `status` is in the success family, 200 to 299.
pub open spec fn is_success(status: u16) -> bool {
    200 <= status && status < 300
}

/// The message of an `Api` error: the body text, or empty where the body
/// could not be read.
pub open spec fn api_message(body: Result<String, reqwest::Error>) -> Seq<char> {
    match body {
        Ok(t) => t@,
        Err(_) => Seq::empty(),
    }
}

/// Classifies a response by its status alone. In the success family the
/// body text is handed on to be decoded, or the transport's failure to read
/// it is reported as `Http`; any other status is an `Api` error carrying the
/// status and the body text, never an attempt to decode.
pub fn response_body(status: u16, body: Result<String, reqwest::Error>) -> (r: Result<String, JulesError>)
    ensures
        is_success(status) ==> match body {
            Ok(t) => (r matches Ok(u) && u@ == t@),
            Err(e) => (r matches Err(JulesError::Http(f)) && f == e),
        },
        !is_success(status) ==> (r matches Err(JulesError::Api { status: s, message }) && s == status
            && message@ == api_message(body)),
{
    if 200 <= status && status < 300 {
        match body {
            Ok(t) => Ok(t),
            Err(e) => Err(JulesError::Http(e)),
        }
    } else {
        let message = match body {
            Ok(t) => t,
            Err(_) => String::new(),
        };
        Err(JulesError::Api { status, message })
    }
}

} // verus!
