//! Requests for pages: a path relative to the API's base origin and the query
//! parameters that go with it.

use vstd::prelude::*;
use vstd::string::*;
use crate::text::{decimal, to_decimal};

verus! {

/// The largest page size the API accepts.
pub const PAGE_MAX_LIMIT: u32 = 50;

/// The side of a page on which an adjacent page lies.
#[derive(Debug, Clone, Copy, PartialEq, Eq, Structural)]
pub enum Direction {
    /// Towards earlier pages.
    Backward,
    /// Towards later pages.
    Forward,
}

/// A GET request that a client is asked to issue.
#[derive(Debug, Clone, PartialEq, Eq)]
pub struct Request {
    /// The path, relative to the base origin that the client puts in front.
    pub path: String,
    /// The query parameters as (key, value) pairs, in the order in which they
    /// are to be sent.
    pub query: Vec<(String, String)>,
}

/// What a [`Request`] asks for, as plain text.
pub struct RequestView {
    pub path: Seq<char>,
    pub query: Seq<(Seq<char>, Seq<char>)>,
}

impl RequestView {
    /// This request with the parameter `limit` added behind the others.
    pub open spec fn with_limit(self, limit: u32) -> RequestView {
        RequestView { path: self.path, query: self.query.push(("limit"@, decimal(limit as nat))) }
    }

    /// Whether the last parameter of this request sets the page size to `limit`.
    pub open spec fn asks_for(self, limit: u32) -> bool {
        self.query.len() > 0 && self.query.last() == ("limit"@, decimal(limit as nat))
    }
}

impl View for Request {
    type V = RequestView;

    open spec fn view(&self) -> RequestView {
        RequestView { path: self.path@, query: self.query.deep_view() }
    }
}

/// What a request that may be absent asks for.
pub open spec fn link_view(link: Option<Request>) -> Option<RequestView> {
    match link {
        Some(request) => Some(request@),
        None => None,
    }
}

impl Request {
    /// A request for `path` without parameters.
    pub fn new(path: String) -> (request: Request)
        ensures
            request@ == (RequestView { path: path@, query: Seq::empty() }),
    {
        let request = Request { path, query: Vec::new() };
        assert(request.query.deep_view() =~= Seq::empty());
        request
    }

    /// Adds the parameter `key=value` behind the others.
    pub fn with_param(self, key: &str, value: &str) -> (request: Request)
        ensures
            request@ == (RequestView {
                path: self@.path,
                query: self@.query.push((key@, value@)),
            }),
    {
        let mut request = self;
        let ghost before = request.query.deep_view();
        request.query.push((key.to_owned(), value.to_owned()));
        assert(request.query.deep_view() =~= before.push((key@, value@)));
        request
    }

    /// Adds the parameter `limit`, written in decimal, behind the others.
    pub fn with_limit(self, limit: u32) -> (request: Request)
        ensures
            request@ == self@.with_limit(limit),
    {
        let value = to_decimal(limit);
        self.with_param("limit", value.as_str())
    }
}

} // verus!
