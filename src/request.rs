//! Authenticated requests, described as plain values that a transport sends.

use vstd::prelude::*;

verus! {

/// The HTTP methods that the service's operations use.
#[derive(Debug, Clone, Copy, PartialEq, Eq, Structural)]
pub enum Method {
    Get,
    Post,
    Delete,
}

/// The value of one query parameter.
#[derive(Debug, Clone)]
pub enum QueryValue {
    Int(i32),
    Text(String),
}

/// A query parameter value, as contracts see it.
pub enum QueryArg {
    Int(int),
    Text(Seq<char>),
}

impl QueryValue {
    pub open spec fn view(&self) -> QueryArg {
        match self {
            QueryValue::Int(i) => QueryArg::Int(*i as int),
            QueryValue::Text(s) => QueryArg::Text(s@),
        }
    }
}

/// A request ready to be sent: method, absolute URL, headers in order,
/// query parameters in order, and an optional JSON body.
#[derive(Debug, Clone)]
pub struct HttpRequest {
    pub method: Method,
    pub url: String,
    pub headers: Vec<(String, String)>,
    pub query: Vec<(String, QueryValue)>,
    pub body: Option<String>,
}

pub open spec fn text_pairs(v: Seq<(String, String)>) -> Seq<(Seq<char>, Seq<char>)> {
    v.map_values(|p: (String, String)| (p.0@, p.1@))
}

pub open spec fn query_pairs(v: Seq<(String, QueryValue)>) -> Seq<(Seq<char>, QueryArg)> {
    v.map_values(|p: (String, QueryValue)| (p.0@, p.1@))
}

pub open spec fn opt_text(o: Option<String>) -> Option<Seq<char>> {
    match o {
        Some(s) => Some(s@),
        None => None,
    }
}

impl HttpRequest {
    pub open spec fn header_seq(&self) -> Seq<(Seq<char>, Seq<char>)> {
        text_pairs(self.headers@)
    }

    pub open spec fn query_seq(&self) -> Seq<(Seq<char>, QueryArg)> {
        query_pairs(self.query@)
    }

    pub open spec fn body_text(&self) -> Option<Seq<char>> {
        opt_text(self.body)
    }
}

} // verus!
