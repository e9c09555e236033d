//! Pages that are addressed by cursor tokens.

use vstd::prelude::*;
use vstd::string::*;
use crate::aggregate::{collect_all, collect_remaining, all_from, remaining_from, Paged, Step};
use crate::endpoint::Endpoint;
use crate::error::Error;
use crate::model::items::{clones_are_equal, clones_of, filter_present, present};
use crate::request::{Direction, Request, RequestView};
use crate::text::decimal;

verus! {

/// The tokens that name the pages around a cursor page. A token that is
/// absent means that no page lay in that direction when the page was fetched.
#[derive(Clone, Debug, PartialEq)]
pub struct Cursor {
    pub after: Option<String>,
    pub before: Option<String>,
}

impl Cursor {
    /// The token of the adjacent page in `direction`, where there is one.
    pub open spec fn token(&self, direction: Direction) -> Option<String> {
        match direction {
            Direction::Backward => self.before,
            Direction::Forward => self.after,
        }
    }
}

/// The query parameter that carries the token of the adjacent page in
/// `direction`.
pub open spec fn token_key(direction: Direction) -> Seq<char> {
    match direction {
        Direction::Backward => "before"@,
        Direction::Forward => "after"@,
    }
}

/// A segment of a list, with tokens in place of links to the segments before
/// and after it. The pages around it are asked for at the URL of its endpoint.
#[derive(Clone, Debug, PartialEq)]
pub struct CursorPage<T, E: Endpoint> {
    /// The URL of the endpoint that returned this page.
    pub href: String,
    /// The largest number of items that the response could hold.
    pub limit: u32,
    /// The URL of the next page. No traversal reads it.
    pub next: Option<String>,
    /// The tokens of the pages around this one.
    pub cursors: Option<Cursor>,
    /// The number of items in the whole list, where the server reports it.
    pub total: Option<u32>,
    /// The items in server order. An item that the server sent as null is
    /// `None` and keeps its place.
    pub items: Vec<Option<T>>,
    /// The endpoint that is asked for the pages around this one.
    pub endpoint: E,
}

impl<T, E: Endpoint> CursorPage<T, E> {
    /// The token of the adjacent page in `direction`, where the page holds one.
    pub open spec fn token(&self, direction: Direction) -> Option<String> {
        match self.cursors {
            Some(cursors) => cursors.token(direction),
            None => None,
        }
    }
}

impl<T, E: Endpoint> Paged for CursorPage<T, E> {
    type Item = T;

    open spec fn entries(&self) -> Seq<Option<T>> {
        self.items@
    }

    /// The endpoint's URL with the adjacent page's token. The client's base
    /// origin plays no part.
    open spec fn target(&self, direction: Direction, origin: Seq<char>) -> Option<RequestView> {
        match self.token(direction) {
            Some(token) => Some(
                RequestView {
                    path: self.endpoint.url(),
                    query: seq![(token_key(direction), token@)],
                },
            ),
            None => None,
        }
    }

    fn link(&self, direction: Direction, _origin: &str) -> (found: Option<Request>) {
        match &self.cursors {
            Some(cursors) => {
                let (key, token) = match direction {
                    Direction::Backward => ("before", &cursors.before),
                    Direction::Forward => ("after", &cursors.after),
                };
                match token {
                    Some(token) => {
                        let request = Request::new(self.endpoint.endpoint_url().to_owned());
                        Some(request.with_param(key, token.as_str()))
                    },
                    None => None,
                }
            },
            None => None,
        }
    }

    fn into_entries(self) -> (entries: Vec<Option<T>>) {
        self.items
    }
}

impl<T, E: Endpoint> CursorPage<T, E> {
    /// The request for the page before this one, at this page's size. Fails
    /// with `NoRemainingPages` where the page holds no token for it.
    pub fn get_before(&self) -> (result: Result<Request, Error>)
        ensures
            match self.token(Direction::Backward) {
                Some(token) => result matches Ok(request) && request@ == (RequestView {
                    path: self.endpoint.url(),
                    query: seq![("before"@, token@), ("limit"@, decimal(self.limit as nat))],
                }),
                None => result == Err::<Request, Error>(Error::NoRemainingPages),
            },
    {
        match self.link(Direction::Backward, "") {
            Some(link) => {
                let request = link.with_limit(self.limit);
                assert(request@.query =~= seq![
                    ("before"@, self.token(Direction::Backward)->0@),
                    ("limit"@, decimal(self.limit as nat)),
                ]);
                Ok(request)
            },
            None => Err(Error::NoRemainingPages),
        }
    }

    /// The request for the page after this one, at this page's size. Fails
    /// with `NoRemainingPages` where the page holds no token for it.
    pub fn get_after(&self) -> (result: Result<Request, Error>)
        ensures
            match self.token(Direction::Forward) {
                Some(token) => result matches Ok(request) && request@ == (RequestView {
                    path: self.endpoint.url(),
                    query: seq![("after"@, token@), ("limit"@, decimal(self.limit as nat))],
                }),
                None => result == Err::<Request, Error>(Error::NoRemainingPages),
            },
    {
        match self.link(Direction::Forward, "") {
            Some(link) => {
                let request = link.with_limit(self.limit);
                assert(request@.query =~= seq![
                    ("after"@, self.token(Direction::Forward)->0@),
                    ("limit"@, decimal(self.limit as nat)),
                ]);
                Ok(request)
            },
            None => Err(Error::NoRemainingPages),
        }
    }

    /// Starts to collect the items of this page and of every page after it.
    /// The step that comes back tells the client what to do first; the client
    /// carries it out and hands the outcome to the step, until a step is
    /// `Done`.
    pub fn get_remaining(self) -> (step: Step<CursorPage<T, E>>)
        ensures
            step@ == remaining_from(self, Seq::empty()),
            step@.is_paced(),
    {
        proof {
            reveal_strlit("");
        }
        assert(""@ =~= Seq::<char>::empty());
        collect_remaining(self, "")
    }

    /// Starts to collect the items of every page before this one, of this page
    /// and of every page after it: first backward from this page, then forward
    /// from it. The items of the pages before come first, in the order in
    /// which the pages were fetched, then this page's, then those of the pages
    /// after.
    pub fn get_all(self) -> (step: Step<CursorPage<T, E>>)
        ensures
            step@ == all_from(self, Seq::empty()),
            step@.is_paced(),
    {
        proof {
            reveal_strlit("");
        }
        assert(""@ =~= Seq::<char>::empty());
        collect_all(self, "")
    }
}

impl<T: Clone, E: Endpoint> CursorPage<T, E> {
    /// The items that are present, in order and without the holes.
    pub fn filtered_items(&self) -> (values: Vec<T>)
        ensures
            clones_of(present(self.items@), values@),
            clones_are_equal::<T>() ==> values@ == present(self.items@),
    {
        filter_present(&self.items)
    }
}

/// The pages around a cursor page are asked for at the URL of its endpoint,
/// with its token: the page's own `next` link, like everything else it holds,
/// and the client's base origin play no part.
pub proof fn lemma_cursor_target_is_the_endpoint<T, E: Endpoint>(
    page: CursorPage<T, E>,
    other: CursorPage<T, E>,
    direction: Direction,
    origin: Seq<char>,
    other_origin: Seq<char>,
)
    requires
        page.cursors == other.cursors,
        page.endpoint == other.endpoint,
    ensures
        page.target(direction, origin) == other.target(direction, other_origin),
        page.target(direction, origin) matches Some(request) ==> request.path
            == page.endpoint.url(),
{
}

} // verus!
