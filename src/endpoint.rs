//! Resolution of resource paths against the service's base address.
//!
//! URL parsing and joining are done by the `url` crate; the library names
//! their results and threads them through its own contracts.

use vstd::prelude::*;

verus! {

/// The serialization of the URL that `Url::parse` makes of `s`, or `None`
/// when `s` is not a well-formed absolute URL.
pub uninterp spec fn parsed_url(s: Seq<char>) -> Option<Seq<char>>;

/// The serialization of the URL that `Url::join` makes of `path` against the
/// base address `base` (itself parsed by `Url::parse`), or `None` when either
/// step fails.
pub uninterp spec fn joined_url(base: Seq<char>, path: Seq<char>) -> Option<Seq<char>>;

/// Relies on `url::Url::parse`, and on `String::from(Url)` for its serialization.
#[verifier::external_body]
pub(crate) fn parse_url(s: &str) -> (r: Result<String, url::ParseError>)
    ensures
        match r {
            Ok(u) => parsed_url(s@) == Some(u@),
            Err(_) => parsed_url(s@) is None,
        },
{
    url::Url::parse(s).map(String::from)
}

/// Relies on `url::Url::parse` for the base address and `url::Url::join` for
/// the path, and on `String::from(Url)` for the serialization of the result.
#[verifier::external_body]
pub(crate) fn join_url(base: &str, path: &str) -> (r: Result<String, url::ParseError>)
    ensures
        match r {
            Ok(u) => joined_url(base@, path@) == Some(u@),
            Err(_) => joined_url(base@, path@) is None,
        },
{
    url::Url::parse(base).and_then(|b| b.join(path)).map(String::from)
}

} // verus!
