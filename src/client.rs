//! The client: one method per operation of the service, each producing the
//! authenticated request that the operation sends.

use vstd::prelude::*;
use vstd::string::*;
use crate::endpoint::{joined_url, parsed_url, parse_url, join_url};
use crate::error::JulesError;
use crate::models::Session;
use crate::paginate::{Paginator, PagerView};
use crate::wire::{encode_message, message_body, approval_body};
use crate::request::{HttpRequest, Method, QueryArg, QueryValue, query_pairs, opt_text};

verus! {

/// The service's base address; every path is resolved against it.
pub const BASE_URL: &'static str = "https://jules.googleapis.com/v1alpha/";

/// The header that carries the credential.
pub const API_KEY_HEADER: &'static str = "X-Goog-Api-Key";

/// The header that declares the accepted response format.
pub const ACCEPT_HEADER: &'static str = "Accept";

/// The only response format the client accepts.
pub const JSON_MEDIA_TYPE: &'static str = "application/json";

/// The query parameter of a listing's filter expression.
pub const FILTER_PARAM: &'static str = "filter";

/// The query parameter of a listing's page size.
pub const PAGE_SIZE_PARAM: &'static str = "pageSize";

/// The query parameter of a listing's cursor.
pub const PAGE_TOKEN_PARAM: &'static str = "pageToken";

/// The headers of every request made with credential `token`, in order.
pub open spec fn auth_headers(token: Seq<char>) -> Seq<(Seq<char>, Seq<char>)> {
    seq![(API_KEY_HEADER@, token), (ACCEPT_HEADER@, JSON_MEDIA_TYPE@)]
}

/// The one-parameter query `key=value` when a value is given, else nothing.
pub open spec fn optional_param(key: Seq<char>, value: Option<QueryArg>) -> Seq<(Seq<char>, QueryArg)> {
    match value {
        Some(v) => seq![(key, v)],
        None => seq![],
    }
}

pub open spec fn text_arg(o: Option<Seq<char>>) -> Option<QueryArg> {
    match o {
        Some(s) => Some(QueryArg::Text(s)),
        None => None,
    }
}

pub open spec fn int_arg(o: Option<i32>) -> Option<QueryArg> {
    match o {
        Some(i) => Some(QueryArg::Int(i as int)),
        None => None,
    }
}

/// The query of a listing: the filter, the page size and the page token,
/// each present exactly when it is supplied, in that order.
pub open spec fn list_query(
    filter: Option<Seq<char>>,
    page_size: Option<i32>,
    page_token: Option<Seq<char>>,
) -> Seq<(Seq<char>, QueryArg)> {
    optional_param(FILTER_PARAM@, text_arg(filter)) + optional_param(PAGE_SIZE_PARAM@, int_arg(page_size))
        + optional_param(PAGE_TOKEN_PARAM@, text_arg(page_token))
}

/// A client of the service, holding the parsed base address and the
/// credential; neither changes after construction.
pub struct JulesClient {
    base_url: String,
    token: String,
}

impl JulesClient {
    /// The serialized base address.
    pub closed spec fn base(&self) -> Seq<char> {
        self.base_url@
    }

    /// The credential sent with every request.
    pub closed spec fn credential(&self) -> Seq<char> {
        self.token@
    }

    /// Whether `r` is the request of method `m` to `path` resolved against
    /// the base address, with the credential and accept headers, query `q`
    /// and body `b`.
    pub open spec fn is_request(
        &self,
        r: HttpRequest,
        m: Method,
        path: Seq<char>,
        q: Seq<(Seq<char>, QueryArg)>,
        b: Option<Seq<char>>,
    ) -> bool {
        &&& joined_url(self.base(), path) == Some(r.url@)
        &&& r.method == m
        &&& r.header_seq() == auth_headers(self.credential())
        &&& r.query_seq() == q
        &&& r.body_text() == b
    }

    /// The outcome of building the request of method `m` to `path` with
    /// query `q` and body `b`: the request itself, or `Url` exactly when the
    /// path does not resolve against the base address.
    pub open spec fn built(
        &self,
        r: Result<HttpRequest, JulesError>,
        m: Method,
        path: Seq<char>,
        q: Seq<(Seq<char>, QueryArg)>,
        b: Option<Seq<char>>,
    ) -> bool {
        match r {
            Ok(req) => self.is_request(req, m, path, q, b),
            Err(e) => joined_url(self.base(), path) is None && e is Url,
        }
    }

    /// Creates a client with credential `token`; fails with `Url` exactly
    /// when the base address does not parse.
    pub fn new(token: String) -> (r: Result<JulesClient, JulesError>)
        ensures
            match r {
                Ok(c) => parsed_url(BASE_URL@) == Some(c.base()) && c.credential() == token@,
                Err(e) => parsed_url(BASE_URL@) is None && e is Url,
            },
    {
        match parse_url(BASE_URL) {
            Ok(base_url) => Ok(JulesClient { base_url, token }),
            Err(e) => Err(JulesError::Url(e)),
        }
    }

    /// Builds the request of method `method` to `path`, with the credential
    /// and the accept headers and nothing else.
    pub fn request(
        &self,
        method: Method,
        path: &str,
        query: Vec<(String, QueryValue)>,
        body: Option<String>,
    ) -> (r: Result<HttpRequest, JulesError>)
        ensures
            self.built(r, method, path@, query_pairs(query@), opt_text(body)),
    {
        match join_url(self.base_url.as_str(), path) {
            Ok(url) => {
                let mut headers: Vec<(String, String)> = Vec::new();
                headers.push((String::from_str(API_KEY_HEADER), self.token.clone()));
                headers.push((String::from_str(ACCEPT_HEADER), String::from_str(JSON_MEDIA_TYPE)));
                let req = HttpRequest { method, url, headers, query, body };
                assert(req.header_seq() =~= auth_headers(self.credential()));
                Ok(req)
            },
            Err(e) => Err(JulesError::Url(e)),
        }
    }
}

} // verus!

verus! {

/// The collection of sessions.
pub const SESSIONS_PATH: &'static str = "sessions";

/// The collection of sources.
pub const SOURCES_PATH: &'static str = "sources";

/// The number of items asked for on each page when streaming.
pub const STREAM_PAGE_SIZE: i32 = 100;

/// The path of a custom method on the resource `name`: the name followed
/// by `method`, which starts with `:`.
pub open spec fn action_path(name: Seq<char>, method: Seq<char>) -> Seq<char> {
    name + method
}

fn no_query() -> (q: Vec<(String, QueryValue)>)
    ensures
        query_pairs(q@) == Seq::<(Seq<char>, QueryArg)>::empty(),
{
    let q: Vec<(String, QueryValue)> = Vec::new();
    assert(query_pairs(q@) =~= Seq::<(Seq<char>, QueryArg)>::empty());
    q
}

/// The path of the activities of session `name`: `{name}/activities`.
pub open spec fn activities_path(name: Seq<char>) -> Seq<char> {
    name + "/activities"@
}

fn build_list_query(
    filter: Option<String>,
    page_size: Option<i32>,
    page_token: Option<String>,
) -> (q: Vec<(String, QueryValue)>)
    ensures
        query_pairs(q@) == list_query(opt_text(filter), page_size, opt_text(page_token)),
{
    let mut q: Vec<(String, QueryValue)> = Vec::new();
    if let Some(f) = filter {
        q.push((String::from_str(FILTER_PARAM), QueryValue::Text(f)));
    }
    if let Some(ps) = page_size {
        q.push((String::from_str(PAGE_SIZE_PARAM), QueryValue::Int(ps)));
    }
    if let Some(pt) = page_token {
        q.push((String::from_str(PAGE_TOKEN_PARAM), QueryValue::Text(pt)));
    }
    assert(query_pairs(q@) =~= list_query(opt_text(filter), page_size, opt_text(page_token)));
    q
}

/// Whatever its method, path, query or body, a request built by the client
/// carries two headers: the credential header with the credential, then the
/// accept header declaring JSON. The two names differ, so each occurs once.
pub proof fn lemma_request_headers(
    c: JulesClient,
    r: HttpRequest,
    m: Method,
    path: Seq<char>,
    q: Seq<(Seq<char>, QueryArg)>,
    b: Option<Seq<char>>,
)
    requires
        c.is_request(r, m, path, q, b),
    ensures
        r.header_seq().len() == 2,
        r.header_seq()[0] == (API_KEY_HEADER@, c.credential()),
        r.header_seq()[1] == (ACCEPT_HEADER@, JSON_MEDIA_TYPE@),
        API_KEY_HEADER@ != ACCEPT_HEADER@,
{
    reveal_strlit("X-Goog-Api-Key");
    reveal_strlit("Accept");
    assert(API_KEY_HEADER@.len() != ACCEPT_HEADER@.len());
}

/// A listing made without a page token carries no `pageToken` parameter at
/// all, not even an empty one; with a token it carries exactly that token.
pub proof fn lemma_page_token_param(filter: Option<Seq<char>>, page_size: Option<i32>, page_token: Option<Seq<char>>)
    ensures
        page_token is None ==> forall|i: int|
            0 <= i < list_query(filter, page_size, page_token).len() ==> (#[trigger] list_query(
                filter,
                page_size,
                page_token,
            )[i]).0 != PAGE_TOKEN_PARAM@,
        page_token matches Some(t) ==> list_query(filter, page_size, page_token).last() == (
            PAGE_TOKEN_PARAM@,
            QueryArg::Text(t),
        ),
{
    reveal_strlit("filter");
    reveal_strlit("pageSize");
    reveal_strlit("pageToken");
    assert(FILTER_PARAM@ != PAGE_TOKEN_PARAM@) by {
        assert(FILTER_PARAM@.len() != PAGE_TOKEN_PARAM@.len());
    }
    assert(PAGE_SIZE_PARAM@ != PAGE_TOKEN_PARAM@) by {
        assert(PAGE_SIZE_PARAM@.len() != PAGE_TOKEN_PARAM@.len());
    }
}

impl JulesClient {
    /// The request that creates a session from its JSON encoding `session`:
    /// POST to the sessions collection with that body.
    pub fn create_session(&self, session: String) -> (r: Result<HttpRequest, JulesError>)
        ensures
            self.built(r, Method::Post, SESSIONS_PATH@, seq![], Some(session@)),
    {
        self.request(Method::Post, SESSIONS_PATH, no_query(), Some(session))
    }

    /// The request that reads the session named `name`.
    pub fn get_session(&self, name: &str) -> (r: Result<HttpRequest, JulesError>)
        ensures
            self.built(r, Method::Get, name@, seq![], None),
    {
        self.request(Method::Get, name, no_query(), None)
    }

    /// The request that deletes the session named `name`.
    pub fn delete_session(&self, name: &str) -> (r: Result<HttpRequest, JulesError>)
        ensures
            self.built(r, Method::Delete, name@, seq![], None),
    {
        self.request(Method::Delete, name, no_query(), None)
    }

    /// The request for one page of sessions.
    pub fn list_sessions(&self, page_size: Option<i32>, page_token: Option<String>) -> (r: Result<
        HttpRequest,
        JulesError,
    >)
        ensures
            self.built(r, Method::Get, SESSIONS_PATH@, list_query(None, page_size, opt_text(page_token)), None),
    {
        let q = build_list_query(None, page_size, page_token);
        self.request(Method::Get, SESSIONS_PATH, q, None)
    }

    /// A fresh pagination session over all sessions, starting with no
    /// cursor and asking for pages of `STREAM_PAGE_SIZE` sessions; each of
    /// its fetches is made with `list_sessions`.
    pub fn stream_sessions(&self) -> (r: Paginator<Session>)
        ensures
            r@ == PagerView::<Session>::Fetching(None),
            r.spec_page_size() == STREAM_PAGE_SIZE,
    {
        Paginator::new(STREAM_PAGE_SIZE)
    }

    /// The request that sends `prompt` to the session named `session_name`.
    pub fn send_message(&self, session_name: &str, prompt: &str) -> (r: Result<HttpRequest, JulesError>)
        ensures
            self.built(r, Method::Post, action_path(session_name@, ":sendMessage"@), seq![], Some(message_body(prompt@))),
    {
        let body = match encode_message(prompt) {
            Ok(b) => b,
            Err(e) => return Err(e),
        };
        let mut path = String::from_str(session_name);
        path.append(":sendMessage");
        self.request(Method::Post, path.as_str(), no_query(), Some(body))
    }

    /// The request that approves the current plan of the session named
    /// `session_name`.
    pub fn approve_plan(&self, session_name: &str) -> (r: Result<HttpRequest, JulesError>)
        ensures
            self.built(r, Method::Post, action_path(session_name@, ":approvePlan"@), seq![], Some(approval_body())),
    {
        let mut path = String::from_str(session_name);
        path.append(":approvePlan");
        self.request(Method::Post, path.as_str(), no_query(), Some(String::from_str("{}")))
    }

    /// The request that reads the activity named `name`.
    pub fn get_activity(&self, name: &str) -> (r: Result<HttpRequest, JulesError>)
        ensures
            self.built(r, Method::Get, name@, seq![], None),
    {
        self.request(Method::Get, name, no_query(), None)
    }

    /// The request for one page of the activities of session `session_name`.
    pub fn list_activities(
        &self,
        session_name: &str,
        page_size: Option<i32>,
        page_token: Option<String>,
    ) -> (r: Result<HttpRequest, JulesError>)
        ensures
            self.built(
                r,
                Method::Get,
                activities_path(session_name@),
                list_query(None, page_size, opt_text(page_token)),
                None,
            ),
    {
        let mut path = String::from_str(session_name);
        path.append("/activities");
        let q = build_list_query(None, page_size, page_token);
        self.request(Method::Get, path.as_str(), q, None)
    }

    /// The request that reads the source named `name`.
    pub fn get_source(&self, name: &str) -> (r: Result<HttpRequest, JulesError>)
        ensures
            self.built(r, Method::Get, name@, seq![], None),
    {
        self.request(Method::Get, name, no_query(), None)
    }

    /// The request for one page of sources, optionally filtered.
    pub fn list_sources(
        &self,
        filter: Option<String>,
        page_size: Option<i32>,
        page_token: Option<String>,
    ) -> (r: Result<HttpRequest, JulesError>)
        ensures
            self.built(
                r,
                Method::Get,
                SOURCES_PATH@,
                list_query(opt_text(filter), page_size, opt_text(page_token)),
                None,
            ),
    {
        let q = build_list_query(filter, page_size, page_token);
        self.request(Method::Get, SOURCES_PATH, q, None)
    }
}

} // verus!
