//! Whole runs of an aggregation: what a driver does, step by step, when the
//! server answers its requests with given responses, and what comes out.

use vstd::prelude::*;
use crate::aggregate::{
    after_response, all_from, remaining_from, LegModel, Paged, StepModel, WalkModel,
    PAGINATION_INTERVAL_MS,
};
use crate::error::Error;
use crate::request::{Direction, RequestView, PAGE_MAX_LIMIT};

verus! {

/// Something that the driver of an aggregation did.
pub enum Action {
    /// It issued this request.
    Fetch(RequestView),
    /// It waited for this many milliseconds.
    Pause(u64),
}

/// What came of driving an aggregation.
pub struct Outcome<T> {
    /// What the aggregation returned; `None` where the responses ran out
    /// while it was still waiting for one.
    pub result: Option<Result<Seq<Option<T>>, Error>>,
    /// What the driver did, in order.
    pub actions: Seq<Action>,
}

/// Drives an aggregation from `step` on: each request is answered with the
/// next of `responses`, each pause is waited out.
pub open spec fn run<P: Paged>(step: StepModel<P::Item>, responses: Seq<Result<P, Error>>)
    -> Outcome<P::Item>
    decreases responses.len(), (if step is Pause { 1int } else { 0int }),
{
    match step {
        StepModel::Done(result) => Outcome { result: Some(result), actions: Seq::empty() },
        StepModel::Pause { millis, then } => {
            let rest = run::<P>(then.seek(), responses);
            Outcome { result: rest.result, actions: seq![Action::Pause(millis)] + rest.actions }
        },
        StepModel::Fetch { request, then } => {
            if responses.len() == 0 {
                Outcome { result: None, actions: seq![Action::Fetch(request)] }
            } else {
                let rest = run::<P>(after_response(then, responses[0]), responses.drop_first());
                Outcome {
                    result: rest.result,
                    actions: seq![Action::Fetch(request)] + rest.actions,
                }
            }
        },
    }
}

/// The responses of a server that returns `pages` one after the other.
pub open spec fn served<P>(pages: Seq<P>) -> Seq<Result<P, Error>> {
    pages.map_values(|page: P| Ok::<P, Error>(page))
}

/// The entries of `pages`, page after page.
pub open spec fn entries_of<P: Paged>(pages: Seq<P>) -> Seq<Option<P::Item>> {
    pages.map_values(|page: P| page.entries()).flatten()
}

/// Whether a walk in `direction` that starts with the link `first` leads
/// through `pages` and no further: `first` leads to the first page, each page
/// links to the one behind it, and the last page links to none.
pub open spec fn leads_through<P: Paged>(
    first: Option<RequestView>,
    pages: Seq<P>,
    direction: Direction,
    origin: Seq<char>,
) -> bool
    decreases pages.len(),
{
    if pages.len() == 0 {
        first is None
    } else {
        first is Some && leads_through(
            pages[0].target(direction, origin),
            pages.drop_first(),
            direction,
            origin,
        )
    }
}

/// What a driver does on a walk through `pages`: for each page it issues the
/// link to it at the largest page size, then it pauses.
pub open spec fn actions_through<P: Paged>(
    first: Option<RequestView>,
    pages: Seq<P>,
    direction: Direction,
    origin: Seq<char>,
) -> Seq<Action>
    decreases pages.len(),
{
    if pages.len() == 0 {
        Seq::empty()
    } else {
        seq![Action::Fetch(first->0.with_limit(PAGE_MAX_LIMIT)), Action::Pause(PAGINATION_INTERVAL_MS)]
            + actions_through(
            pages[0].target(direction, origin),
            pages.drop_first(),
            direction,
            origin,
        )
    }
}

/// Serving a first page and then further pages is serving them all in turn,
/// and their entries come in that order.
proof fn lemma_first_page<P: Paged>(pages: Seq<P>)
    requires
        pages.len() > 0,
    ensures
        served(pages)[0] == Ok::<P, Error>(pages[0]),
        served(pages).drop_first() == served(pages.drop_first()),
        entries_of(pages) == pages[0].entries() + entries_of(pages.drop_first()),
{
    let each = pages.map_values(|page: P| page.entries());
    assert(each.drop_first() =~= pages.drop_first().map_values(|page: P| page.entries()));
}

/// A walk forward through `pages` gathers their entries behind those it holds
/// and ends with all of them.
proof fn lemma_walk_forward<P: Paged>(walk: WalkModel<P::Item>, pages: Seq<P>)
    requires
        walk.leg is Forward,
        leads_through(walk.pending, pages, Direction::Forward, walk.origin),
    ensures
        run::<P>(walk.seek(), served(pages)) == (Outcome {
            result: Some(Ok(walk.gathered + entries_of(pages))),
            actions: actions_through(walk.pending, pages, Direction::Forward, walk.origin),
        }),
    decreases pages.len(),
{
    if pages.len() > 0 {
        lemma_first_page(pages);
        let waiting = WalkModel { pending: None, ..walk };
        let paused = after_response(waiting, served(pages)[0]);
        let onward = WalkModel {
            gathered: walk.gathered + pages[0].entries(),
            pending: pages[0].target(Direction::Forward, walk.origin),
            ..waiting
        };
        lemma_walk_forward(onward, pages.drop_first());
        let rest = run::<P>(onward.seek(), served(pages.drop_first()));
        assert(run::<P>(paused, served(pages.drop_first())) == (Outcome {
            result: rest.result,
            actions: seq![Action::Pause(PAGINATION_INTERVAL_MS)] + rest.actions,
        }));
        assert(onward.gathered + entries_of(pages.drop_first()) =~= walk.gathered + entries_of(
            pages,
        ));
        assert(seq![Action::Fetch(walk.pending->0.with_limit(PAGE_MAX_LIMIT))] + (seq![
            Action::Pause(PAGINATION_INTERVAL_MS),
        ] + rest.actions) =~= actions_through(
            walk.pending,
            pages,
            Direction::Forward,
            walk.origin,
        ));
    }
}

/// A walk backward through `before` that then turns round and goes forward
/// through `after` ends with the entries of `before`, the starting page's own
/// and those of `after`, in that order.
proof fn lemma_walk_backward<P: Paged>(walk: WalkModel<P::Item>, before: Seq<P>, after: Seq<P>)
    requires
        walk.leg is Backward,
        leads_through(walk.pending, before, Direction::Backward, walk.origin),
        leads_through(walk.leg->resume, after, Direction::Forward, walk.origin),
    ensures
        run::<P>(walk.seek(), served(before) + served(after)) == (Outcome {
            result: Some(
                Ok(walk.gathered + entries_of(before) + walk.leg->own + entries_of(after)),
            ),
            actions: actions_through(walk.pending, before, Direction::Backward, walk.origin)
                + actions_through(walk.leg->resume, after, Direction::Forward, walk.origin),
        }),
    decreases before.len(),
{
    if before.len() == 0 {
        let turned = WalkModel {
            origin: walk.origin,
            gathered: walk.gathered + walk.leg->own,
            pending: walk.leg->resume,
            leg: LegModel::Forward,
        };
        lemma_walk_forward(turned, after);
    } else {
        lemma_first_page(before);
        let responses = served(before) + served(after);
        assert(responses.drop_first() =~= served(before.drop_first()) + served(after));
        let waiting = WalkModel { pending: None, ..walk };
        let paused = after_response(waiting, responses[0]);
        let onward = WalkModel {
            gathered: walk.gathered + before[0].entries(),
            pending: before[0].target(Direction::Backward, walk.origin),
            ..waiting
        };
        lemma_walk_backward(onward, before.drop_first(), after);
        let rest = run::<P>(onward.seek(), responses.drop_first());
        assert(run::<P>(paused, responses.drop_first()) == (Outcome {
            result: rest.result,
            actions: seq![Action::Pause(PAGINATION_INTERVAL_MS)] + rest.actions,
        }));
        assert(onward.gathered + entries_of(before.drop_first()) + walk.leg->own + entries_of(after)
            =~= walk.gathered + entries_of(before) + walk.leg->own + entries_of(after));
        assert(seq![Action::Fetch(walk.pending->0.with_limit(PAGE_MAX_LIMIT))] + (seq![
            Action::Pause(PAGINATION_INTERVAL_MS),
        ] + rest.actions) =~= actions_through(
            walk.pending,
            before,
            Direction::Backward,
            walk.origin,
        ) + actions_through(walk.leg->resume, after, Direction::Forward, walk.origin));
    }
}

/// Collecting what remains walks forward to the last page: where the links
/// forward lead from `page` through `after` and no further, and the server
/// returns those pages, the aggregation ends with the entries of `page` and
/// then of each page of `after`, in order. The driver fetches each page at the
/// largest page size and pauses after each.
pub proof fn lemma_remaining_collects_every_page<P: Paged>(
    page: P,
    after: Seq<P>,
    origin: Seq<char>,
)
    requires
        leads_through(page.target(Direction::Forward, origin), after, Direction::Forward, origin),
    ensures
        run::<P>(remaining_from(page, origin), served(after)) == (Outcome {
            result: Some(Ok(page.entries() + entries_of(after))),
            actions: actions_through(
                page.target(Direction::Forward, origin),
                after,
                Direction::Forward,
                origin,
            ),
        }),
{
    let walk = WalkModel {
        origin,
        gathered: page.entries(),
        pending: page.target(Direction::Forward, origin),
        leg: LegModel::Forward,
    };
    lemma_walk_forward(walk, after);
}

/// Collecting everything walks backward to the first page, then forward to
/// the last: where the links backward lead from `page` through `before`, the
/// links forward lead from `page` through `after`, and the server returns
/// those pages, the aggregation ends with the entries of `before` in the
/// order in which its pages were fetched, then those of `page`, then those of
/// `after`. The driver fetches each page at the largest page size and pauses
/// after each.
pub proof fn lemma_all_collects_every_page<P: Paged>(
    page: P,
    before: Seq<P>,
    after: Seq<P>,
    origin: Seq<char>,
)
    requires
        leads_through(
            page.target(Direction::Backward, origin),
            before,
            Direction::Backward,
            origin,
        ),
        leads_through(page.target(Direction::Forward, origin), after, Direction::Forward, origin),
    ensures
        run::<P>(all_from(page, origin), served(before) + served(after)) == (Outcome {
            result: Some(Ok(entries_of(before) + page.entries() + entries_of(after))),
            actions: actions_through(
                page.target(Direction::Backward, origin),
                before,
                Direction::Backward,
                origin,
            ) + actions_through(
                page.target(Direction::Forward, origin),
                after,
                Direction::Forward,
                origin,
            ),
        }),
{
    let walk = WalkModel {
        origin,
        gathered: Seq::empty(),
        pending: page.target(Direction::Backward, origin),
        leg: LegModel::Backward {
            own: page.entries(),
            resume: page.target(Direction::Forward, origin),
        },
    };
    lemma_walk_backward(walk, before, after);
}

/// A failed request ends the aggregation with the failure: whatever was
/// served and collected before, once the aggregation waits for a response and
/// the response is an error other than `NoRemainingPages`, the aggregation
/// returns that error, and no entries.
pub proof fn lemma_failure_ends_run<P: Paged>(
    step: StepModel<P::Item>,
    earlier: Seq<Result<P, Error>>,
    error: Error,
    later: Seq<Result<P, Error>>,
)
    requires
        error != Error::NoRemainingPages,
        run::<P>(step, earlier).result is None,
    ensures
        run::<P>(step, earlier + seq![Err::<P, Error>(error)] + later).result == Some(
            Err::<Seq<Option<P::Item>>, Error>(error),
        ),
    decreases earlier.len(), (if step is Pause { 1int } else { 0int }),
{
    let responses = earlier + seq![Err::<P, Error>(error)] + later;
    match step {
        StepModel::Done(_) => {
        },
        StepModel::Pause { millis, then } => {
            lemma_failure_ends_run::<P>(then.seek(), earlier, error, later);
        },
        StepModel::Fetch { request, then } => {
            if earlier.len() == 0 {
                assert(run::<P>(step, responses).result == run::<P>(
                    after_response(then, responses[0]),
                    responses.drop_first(),
                ).result);
            } else {
                assert(responses.drop_first() =~= earlier.drop_first() + seq![
                    Err::<P, Error>(error),
                ] + later);
                lemma_failure_ends_run::<P>(
                    after_response(then, earlier[0]),
                    earlier.drop_first(),
                    error,
                    later,
                );
            }
        },
    }
}

/// The end of the pages is no failure of an aggregation: whatever the server
/// answers, an aggregation never returns `NoRemainingPages`.
pub proof fn lemma_end_of_pages_stays_inside<P: Paged>(
    step: StepModel<P::Item>,
    responses: Seq<Result<P, Error>>,
)
    requires
        step != StepModel::Done(Err::<Seq<Option<P::Item>>, Error>(Error::NoRemainingPages)),
    ensures
        run::<P>(step, responses).result != Some(
            Err::<Seq<Option<P::Item>>, Error>(Error::NoRemainingPages),
        ),
    decreases responses.len(), (if step is Pause { 1int } else { 0int }),
{
    match step {
        StepModel::Done(_) => {},
        StepModel::Pause { millis, then } => {
            lemma_end_of_pages_stays_inside::<P>(then.seek(), responses);
        },
        StepModel::Fetch { request, then } => {
            if responses.len() > 0 {
                lemma_end_of_pages_stays_inside::<P>(
                    after_response(then, responses[0]),
                    responses.drop_first(),
                );
            }
        },
    }
}

/// Whether every request among `actions` asks for the largest page size and
/// every pause lasts the pagination interval.
pub open spec fn paced(actions: Seq<Action>) -> bool {
    forall|k: int|
        0 <= k < actions.len() ==> match #[trigger] actions[k] {
            Action::Fetch(request) => request.asks_for(PAGE_MAX_LIMIT),
            Action::Pause(millis) => millis == PAGINATION_INTERVAL_MS,
        }
}

proof fn lemma_run_is_paced<P: Paged>(step: StepModel<P::Item>, responses: Seq<Result<P, Error>>)
    requires
        step.is_paced(),
    ensures
        paced(run::<P>(step, responses).actions),
    decreases responses.len(), (if step is Pause { 1int } else { 0int }),
{
    match step {
        StepModel::Done(_) => {},
        StepModel::Pause { millis, then } => {
            lemma_run_is_paced::<P>(then.seek(), responses);
        },
        StepModel::Fetch { request, then } => {
            if responses.len() > 0 {
                lemma_run_is_paced::<P>(after_response(then, responses[0]), responses.drop_first());
            }
        },
    }
}

/// An aggregation asks for every page at the largest page size, whatever the
/// size of the page it starts from and of the pages it is served, and pauses
/// for the pagination interval.
pub proof fn lemma_aggregation_is_paced<P: Paged>(
    page: P,
    origin: Seq<char>,
    responses: Seq<Result<P, Error>>,
)
    ensures
        paced(run::<P>(remaining_from(page, origin), responses).actions),
        paced(run::<P>(all_from(page, origin), responses).actions),
{
    lemma_run_is_paced::<P>(remaining_from(page, origin), responses);
    lemma_run_is_paced::<P>(all_from(page, origin), responses);
}

} // verus!
