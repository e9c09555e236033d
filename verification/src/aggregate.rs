//! Aggregation: collecting the entries of every page that can be reached from
//! a starting page into one ordered list.
//!
//! An aggregation does no input or output itself. It is a state machine that
//! tells its driver what to do next (fetch a page, pause, finish) and is told
//! what came of it. The driver performs each step and hands the outcome back.

use vstd::prelude::*;
use crate::error::Error;
use crate::request::{link_view, Direction, Request, RequestView, PAGE_MAX_LIMIT};

pub mod run;

verus! {

/// The pause after every page that an aggregation fetched, in milliseconds.
pub const PAGINATION_INTERVAL_MS: u64 = 100;

/// A page of entries that may link to the pages before and after it.
pub trait Paged: Sized {
    /// What an entry holds when it is present.
    type Item;

    /// The entries of the page, in the order in which the server sent them. An
    /// entry that the server sent as null is `None`.
    spec fn entries(&self) -> Seq<Option<Self::Item>>;

    /// The request for the adjacent page in `direction`, still without a page
    /// size, for a client whose base origin is `origin`; `None` where the page
    /// names no adjacent page in that direction.
    spec fn target(&self, direction: Direction, origin: Seq<char>) -> Option<RequestView>;

    /// Computes [`Self::target`].
    fn link(&self, direction: Direction, origin: &str) -> (found: Option<Request>)
        ensures
            link_view(found) == self.target(direction, origin@),
    ;

    /// Gives up the page for its entries.
    fn into_entries(self) -> (entries: Vec<Option<Self::Item>>)
        ensures
            entries@ == self.entries(),
    ;
}

/// The part of an aggregation that is still ahead.
pub enum LegModel<T> {
    /// Walking towards earlier pages. The entries of the starting page (`own`)
    /// and its link forward (`resume`) wait for the walk to turn round.
    Backward { own: Seq<Option<T>>, resume: Option<RequestView> },
    /// Walking towards later pages.
    Forward,
}

/// The state of an aggregation between two steps.
pub struct WalkModel<T> {
    /// The base origin of the client that drives the aggregation.
    pub origin: Seq<char>,
    /// The entries collected so far.
    pub gathered: Seq<Option<T>>,
    /// The link from the page fetched last to the next one in the direction of
    /// the walk, without a page size.
    pub pending: Option<RequestView>,
    pub leg: LegModel<T>,
}

/// What the driver of an aggregation has to do next, and the state in which
/// the aggregation waits for it.
pub enum StepModel<T> {
    /// Issue `request` and report the response.
    Fetch { request: RequestView, then: WalkModel<T> },
    /// Wait for `millis` milliseconds, then report back.
    Pause { millis: u64, then: WalkModel<T> },
    /// The aggregation is over: all entries in order, or the error that ended it.
    Done(Result<Seq<Option<T>>, Error>),
}

impl<T> StepModel<T> {
    /// Whether the step keeps the pace of an aggregation: a request asks for
    /// the largest page size, a pause lasts the pagination interval.
    pub open spec fn is_paced(self) -> bool {
        match self {
            StepModel::Fetch { request, .. } => request.asks_for(PAGE_MAX_LIMIT),
            StepModel::Pause { millis, .. } => millis == PAGINATION_INTERVAL_MS,
            StepModel::Done(_) => true,
        }
    }
}

impl<T> WalkModel<T> {
    /// The direction in which the walk is going.
    pub open spec fn direction(self) -> Direction {
        match self.leg {
            LegModel::Backward { .. } => Direction::Backward,
            LegModel::Forward => Direction::Forward,
        }
    }

    /// The step that follows `link`: the request for it at the largest page
    /// size, whatever the size of the page that held the link.
    pub open spec fn fetch(self, link: RequestView) -> StepModel<T> {
        StepModel::Fetch {
            request: link.with_limit(PAGE_MAX_LIMIT),
            then: WalkModel { pending: None, ..self },
        }
    }

    /// The next step of a walk that has nowhere to turn: fetch the pending
    /// link, or finish with what was collected where there is none.
    pub open spec fn seek_forward(self) -> StepModel<T> {
        match self.pending {
            Some(link) => self.fetch(link),
            None => StepModel::Done(Ok(self.gathered)),
        }
    }

    /// The step that follows the end of the current direction. A walk backward
    /// turns round: the starting page's entries go behind those collected
    /// backward and the walk goes on from the starting page's link forward. A
    /// walk forward is over.
    pub open spec fn end_direction(self) -> StepModel<T> {
        match self.leg {
            LegModel::Backward { own, resume } => (WalkModel {
                origin: self.origin,
                gathered: self.gathered + own,
                pending: resume,
                leg: LegModel::Forward,
            }).seek_forward(),
            LegModel::Forward => StepModel::Done(Ok(self.gathered)),
        }
    }

    /// The next step of the walk: fetch the pending link, or end the direction
    /// where there is none.
    pub open spec fn seek(self) -> StepModel<T> {
        match self.pending {
            Some(link) => self.fetch(link),
            None => self.end_direction(),
        }
    }
}

/// The step that follows the response to a fetch. A page adds its entries and
/// its link onward, and a pause follows. `NoRemainingPages` ends the direction.
/// Any other error ends the aggregation with that error and without entries.
pub open spec fn after_response<P: Paged>(walk: WalkModel<P::Item>, response: Result<P, Error>)
    -> StepModel<P::Item> {
    match response {
        Ok(page) => StepModel::Pause {
            millis: PAGINATION_INTERVAL_MS,
            then: WalkModel {
                gathered: walk.gathered + page.entries(),
                pending: page.target(walk.direction(), walk.origin),
                ..walk
            },
        },
        Err(Error::NoRemainingPages) => walk.end_direction(),
        Err(error) => StepModel::Done(Err(error)),
    }
}

/// The first step of collecting `page` and every page after it.
pub open spec fn remaining_from<P: Paged>(page: P, origin: Seq<char>) -> StepModel<P::Item> {
    (WalkModel {
        origin,
        gathered: page.entries(),
        pending: page.target(Direction::Forward, origin),
        leg: LegModel::Forward,
    }).seek()
}

/// The first step of collecting every page before `page`, `page` itself and
/// every page after it.
pub open spec fn all_from<P: Paged>(page: P, origin: Seq<char>) -> StepModel<P::Item> {
    (WalkModel {
        origin,
        gathered: Seq::empty(),
        pending: page.target(Direction::Backward, origin),
        leg: LegModel::Backward {
            own: page.entries(),
            resume: page.target(Direction::Forward, origin),
        },
    }).seek()
}

enum Leg<T> {
    Backward { own: Vec<Option<T>>, resume: Option<Request> },
    Forward,
}

/// The state of an aggregation between two steps.
struct Walk<T> {
    origin: String,
    gathered: Vec<Option<T>>,
    pending: Option<Request>,
    leg: Leg<T>,
}

impl<T> View for Walk<T> {
    type V = WalkModel<T>;

    closed spec fn view(&self) -> WalkModel<T> {
        WalkModel {
            origin: self.origin@,
            gathered: self.gathered@,
            pending: link_view(self.pending),
            leg: match self.leg {
                Leg::Backward { own, resume } => LegModel::Backward {
                    own: own@,
                    resume: link_view(resume),
                },
                Leg::Forward => LegModel::Forward,
            },
        }
    }
}

/// An aggregation that waits for the response to the request it asked for.
pub struct Fetching<P: Paged> {
    walk: Walk<P::Item>,
}

/// An aggregation that waits for its pause to be over.
pub struct Pausing<P: Paged> {
    walk: Walk<P::Item>,
}

impl<P: Paged> View for Fetching<P> {
    type V = WalkModel<P::Item>;

    closed spec fn view(&self) -> WalkModel<P::Item> {
        self.walk@
    }
}

impl<P: Paged> View for Pausing<P> {
    type V = WalkModel<P::Item>;

    closed spec fn view(&self) -> WalkModel<P::Item> {
        self.walk@
    }
}

/// What the driver of an aggregation has to do next.
pub enum Step<P: Paged> {
    /// Issue `request`, then hand the response to [`Fetching::fetched`].
    Fetch { request: Request, fetching: Fetching<P> },
    /// Wait for `millis` milliseconds, then call [`Pausing::resumed`].
    Pause { millis: u64, pausing: Pausing<P> },
    /// The aggregation is over: all entries in order, or the error that ended it.
    Done(Result<Vec<Option<P::Item>>, Error>),
}

impl<P: Paged> View for Step<P> {
    type V = StepModel<P::Item>;

    open spec fn view(&self) -> StepModel<P::Item> {
        match *self {
            Step::Fetch { request, fetching } => StepModel::Fetch { request: request@, then: fetching@ },
            Step::Pause { millis, pausing } => StepModel::Pause { millis, then: pausing@ },
            Step::Done(Ok(entries)) => StepModel::Done(Ok(entries@)),
            Step::Done(Err(error)) => StepModel::Done(Err(error)),
        }
    }
}

fn seek_forward<P: Paged>(walk: Walk<P::Item>) -> (step: Step<P>)
    ensures
        step@ == walk@.seek_forward(),
{
    let Walk { origin, gathered, pending, leg } = walk;
    match pending {
        Some(link) => Step::Fetch {
            request: link.with_limit(PAGE_MAX_LIMIT),
            fetching: Fetching { walk: Walk { origin, gathered, pending: None, leg } },
        },
        None => Step::Done(Ok(gathered)),
    }
}

fn end_direction<P: Paged>(walk: Walk<P::Item>) -> (step: Step<P>)
    ensures
        step@ == walk@.end_direction(),
{
    let Walk { origin, gathered, pending, leg } = walk;
    match leg {
        Leg::Backward { own, resume } => {
            let mut gathered = gathered;
            let mut own = own;
            gathered.append(&mut own);
            seek_forward(Walk { origin, gathered, pending: resume, leg: Leg::Forward })
        },
        Leg::Forward => Step::Done(Ok(gathered)),
    }
}

fn seek<P: Paged>(walk: Walk<P::Item>) -> (step: Step<P>)
    ensures
        step@ == walk@.seek(),
{
    if walk.pending.is_some() {
        seek_forward(walk)
    } else {
        end_direction(walk)
    }
}

impl<P: Paged> Fetching<P> {
    /// Takes the response to the request that the aggregation asked for and
    /// says what to do next.
    pub fn fetched(self, response: Result<P, Error>) -> (step: Step<P>)
        ensures
            step@ == after_response(self@, response),
            step@.is_paced(),
            response is Ok ==> step@ is Pause,
            response matches Err(error) ==> error != Error::NoRemainingPages ==> step@
                == StepModel::<P::Item>::Done(Err(error)),
    {
        let Walk { origin, gathered, pending, leg } = self.walk;
        match response {
            Ok(page) => {
                let direction = match leg {
                    Leg::Backward { .. } => Direction::Backward,
                    Leg::Forward => Direction::Forward,
                };
                let pending = page.link(direction, origin.as_str());
                let mut entries = page.into_entries();
                let mut gathered = gathered;
                gathered.append(&mut entries);
                Step::Pause {
                    millis: PAGINATION_INTERVAL_MS,
                    pausing: Pausing { walk: Walk { origin, gathered, pending, leg } },
                }
            },
            Err(Error::NoRemainingPages) => end_direction(Walk { origin, gathered, pending, leg }),
            Err(error) => Step::Done(Err(error)),
        }
    }
}

impl<P: Paged> Pausing<P> {
    /// Takes up the aggregation after its pause and says what to do next.
    pub fn resumed(self) -> (step: Step<P>)
        ensures
            step@ == self@.seek(),
            step@.is_paced(),
    {
        seek(self.walk)
    }
}

/// Starts to collect the entries of `page` and of every page after it, for a
/// client whose base origin is `origin`.
pub fn collect_remaining<P: Paged>(page: P, origin: &str) -> (step: Step<P>)
    ensures
        step@ == remaining_from(page, origin@),
        step@.is_paced(),
{
    let pending = page.link(Direction::Forward, origin);
    let gathered = page.into_entries();
    seek(Walk { origin: origin.to_owned(), gathered, pending, leg: Leg::Forward })
}

/// Starts to collect the entries of every page before `page`, of `page` and of
/// every page after it, for a client whose base origin is `origin`.
pub fn collect_all<P: Paged>(page: P, origin: &str) -> (step: Step<P>)
    ensures
        step@ == all_from(page, origin@),
        step@.is_paced(),
{
    let pending = page.link(Direction::Backward, origin);
    let resume = page.link(Direction::Forward, origin);
    let own = page.into_entries();
    seek(
        Walk {
            origin: origin.to_owned(),
            gathered: Vec::new(),
            pending,
            leg: Leg::Backward { own, resume },
        },
    )
}

} // verus!
