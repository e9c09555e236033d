//! Pages that are addressed by offset and linked by URL.

use vstd::prelude::*;
use vstd::string::*;
use crate::aggregate::{collect_all, collect_remaining, all_from, remaining_from, Paged, Step};
use crate::error::Error;
use crate::model::items::{clones_are_equal, clones_of, filter_present, present};
use crate::request::{Direction, Request, RequestView};
use crate::text::{decimal, strip_origin, without};

verus! {

/// A segment of a list, with the URLs of the segments before and after it.
#[derive(Clone, Debug, PartialEq)]
pub struct Page<T> {
    /// The URL of the endpoint that returned this page.
    pub href: String,
    /// The largest number of items that the response could hold.
    pub limit: u32,
    /// The URL of the next page, where there is one.
    pub next: Option<String>,
    /// The position of the first item in the whole list.
    pub offset: u32,
    /// The URL of the previous page, where there is one.
    pub previous: Option<String>,
    /// The number of items in the whole list when the page was fetched.
    pub total: u32,
    /// The items in server order. An item that the server sent as null is
    /// `None` and keeps its place.
    pub items: Vec<Option<T>>,
}

impl<T> Page<T> {
    /// The URL of the adjacent page in `direction`, where the page names one.
    pub open spec fn adjacent(&self, direction: Direction) -> Option<String> {
        match direction {
            Direction::Backward => self.previous,
            Direction::Forward => self.next,
        }
    }
}

impl<T> Paged for Page<T> {
    type Item = T;

    open spec fn entries(&self) -> Seq<Option<T>> {
        self.items@
    }

    /// The adjacent page's URL without the client's base origin, which the
    /// client puts in front of every path itself.
    open spec fn target(&self, direction: Direction, origin: Seq<char>) -> Option<RequestView> {
        match self.adjacent(direction) {
            Some(url) => Some(RequestView { path: without(url@, origin), query: Seq::empty() }),
            None => None,
        }
    }

    fn link(&self, direction: Direction, origin: &str) -> (found: Option<Request>) {
        let adjacent = match direction {
            Direction::Backward => &self.previous,
            Direction::Forward => &self.next,
        };
        match adjacent {
            Some(url) => Some(Request::new(strip_origin(url.as_str(), origin))),
            None => None,
        }
    }

    fn into_entries(self) -> (entries: Vec<Option<T>>) {
        self.items
    }
}

impl<T> Page<T> {
    /// The request for the next page, at this page's size, for a client whose
    /// base origin is `origin`. Fails with `NoRemainingPages` where the page
    /// names no next page.
    pub fn get_next(&self, origin: &str) -> (result: Result<Request, Error>)
        ensures
            match self.next {
                Some(url) => result matches Ok(request) && request@ == (RequestView {
                    path: without(url@, origin@),
                    query: seq![("limit"@, decimal(self.limit as nat))],
                }),
                None => result == Err::<Request, Error>(Error::NoRemainingPages),
            },
    {
        match self.link(Direction::Forward, origin) {
            Some(link) => Ok(link.with_limit(self.limit)),
            None => Err(Error::NoRemainingPages),
        }
    }

    /// The request for the previous page, at this page's size, for a client
    /// whose base origin is `origin`. Fails with `NoRemainingPages` where the
    /// page names no previous page.
    pub fn get_previous(&self, origin: &str) -> (result: Result<Request, Error>)
        ensures
            match self.previous {
                Some(url) => result matches Ok(request) && request@ == (RequestView {
                    path: without(url@, origin@),
                    query: seq![("limit"@, decimal(self.limit as nat))],
                }),
                None => result == Err::<Request, Error>(Error::NoRemainingPages),
            },
    {
        match self.link(Direction::Backward, origin) {
            Some(link) => Ok(link.with_limit(self.limit)),
            None => Err(Error::NoRemainingPages),
        }
    }

    /// Starts to collect the items of this page and of every page after it.
    /// The step that comes back tells the client what to do first; the client
    /// carries it out and hands the outcome to the step, until a step is
    /// `Done`.
    pub fn get_remaining(self, origin: &str) -> (step: Step<Page<T>>)
        ensures
            step@ == remaining_from(self, origin@),
            step@.is_paced(),
    {
        collect_remaining(self, origin)
    }

    /// Starts to collect the items of every page before this one, of this page
    /// and of every page after it: first backward from this page, then forward
    /// from it. The items of the pages before come first, in the order in
    /// which the pages were fetched, then this page's, then those of the pages
    /// after.
    pub fn get_all(self, origin: &str) -> (step: Step<Page<T>>)
        ensures
            step@ == all_from(self, origin@),
            step@.is_paced(),
    {
        collect_all(self, origin)
    }
}

impl<T: Clone> Page<T> {
    /// The items that are present, in order and without the holes.
    pub fn filtered_items(&self) -> (values: Vec<T>)
        ensures
            clones_of(present(self.items@), values@),
            clones_are_equal::<T>() ==> values@ == present(self.items@),
    {
        filter_present(&self.items)
    }
}

} // verus!
