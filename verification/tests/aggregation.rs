use spotify_rs::aggregate::{Paged, Step, PAGINATION_INTERVAL_MS};
use spotify_rs::error::Error;
use spotify_rs::model::{Cursor, CursorPage, Page};
use spotify_rs::request::{Request, PAGE_MAX_LIMIT};

const ORIGIN: &str = "https://api.example";

#[derive(Debug, PartialEq)]
enum Did {
    Fetched(Request),
    Paused(u64),
}

struct Ran<T> {
    result: Option<Result<Vec<Option<T>>, Error>>,
    did: Vec<Did>,
    left: usize,
}

/// Drives an aggregation the way a client does, with the responses of a server
/// written out beforehand.
fn drive<P: Paged>(first: Step<P>, responses: Vec<Result<P, Error>>) -> Ran<P::Item> {
    let mut responses = responses.into_iter();
    let mut did = Vec::new();
    let mut step = first;
    loop {
        step = match step {
            Step::Fetch { request, fetching } => {
                did.push(Did::Fetched(request));
                match responses.next() {
                    Some(response) => fetching.fetched(response),
                    None => return Ran { result: None, did, left: 0 },
                }
            }
            Step::Pause { millis, pausing } => {
                did.push(Did::Paused(millis));
                pausing.resumed()
            }
            Step::Done(result) => {
                return Ran { result: Some(result), did, left: responses.count() };
            }
        };
    }
}

fn fetch(path: &str, params: &[(&str, &str)]) -> Did {
    Did::Fetched(Request {
        path: path.to_string(),
        query: params.iter().map(|(k, v)| (k.to_string(), v.to_string())).collect(),
    })
}

fn tracks(offset: u32, limit: u32, total: u32, items: Vec<Option<u32>>) -> Page<u32> {
    let link = |at: u32| format!("https://api.example/v1/tracks?offset={}", at);
    Page {
        href: link(offset),
        limit,
        next: if offset + limit < total { Some(link(offset + limit)) } else { None },
        offset,
        previous: if offset >= limit { Some(link(offset - limit)) } else { None },
        total,
        items,
    }
}

#[test]
fn get_remaining_collects_the_pages_in_order_with_a_pause_after_each() {
    let start = tracks(0, 2, 6, vec![Some(1), None]);
    let next_one = tracks(2, 2, 6, vec![Some(3), Some(4)]);
    let next_two = tracks(4, 2, 6, vec![None, Some(6)]);
    let ran = drive(start.get_remaining(ORIGIN), vec![Ok(next_one), Ok(next_two)]);
    assert_eq!(
        ran.result,
        Some(Ok(vec![Some(1), None, Some(3), Some(4), None, Some(6)]))
    );
    assert_eq!(
        ran.did,
        vec![
            fetch("/v1/tracks?offset=2", &[("limit", "50")]),
            Did::Paused(100),
            fetch("/v1/tracks?offset=4", &[("limit", "50")]),
            Did::Paused(100),
        ]
    );
    assert_eq!(ran.did.iter().filter(|did| matches!(did, Did::Paused(_))).count(), 2);
    assert_eq!(ran.left, 0);
}

#[test]
fn get_all_puts_the_earlier_page_first_and_the_later_page_last() {
    let before = tracks(0, 2, 6, vec![Some(1), Some(2)]);
    let start = tracks(2, 2, 6, vec![Some(3), None]);
    let after = tracks(4, 2, 6, vec![Some(5), Some(6)]);
    let ran = drive(start.get_all(ORIGIN), vec![Ok(before), Ok(after)]);
    assert_eq!(
        ran.result,
        Some(Ok(vec![Some(1), Some(2), Some(3), None, Some(5), Some(6)]))
    );
    assert_eq!(
        ran.did,
        vec![
            fetch("/v1/tracks?offset=0", &[("limit", "50")]),
            Did::Paused(100),
            fetch("/v1/tracks?offset=4", &[("limit", "50")]),
            Did::Paused(100),
        ]
    );
}

#[test]
fn get_all_keeps_earlier_pages_in_the_order_of_their_fetches() {
    let back_two = tracks(0, 1, 5, vec![Some(10)]);
    let back_one = tracks(1, 1, 5, vec![Some(11)]);
    let start = tracks(2, 1, 5, vec![Some(12)]);
    let next_one = tracks(3, 1, 5, vec![Some(13)]);
    let next_two = tracks(4, 1, 5, vec![Some(14)]);
    let ran = drive(start.get_all(ORIGIN), vec![Ok(back_one), Ok(back_two), Ok(next_one), Ok(next_two)]);
    assert_eq!(
        ran.result,
        Some(Ok(vec![Some(11), Some(10), Some(12), Some(13), Some(14)]))
    );
    let paths: Vec<String> = ran
        .did
        .iter()
        .filter_map(|did| match did {
            Did::Fetched(request) => Some(request.path.clone()),
            Did::Paused(_) => None,
        })
        .collect();
    assert_eq!(
        paths,
        vec![
            "/v1/tracks?offset=1",
            "/v1/tracks?offset=0",
            "/v1/tracks?offset=3",
            "/v1/tracks?offset=4"
        ]
    );
    assert_eq!(ran.did.len(), 8);
}

#[test]
fn a_failure_at_the_third_fetch_is_all_that_comes_back() {
    let start = tracks(0, 1, 9, vec![Some(1)]);
    let next_one = tracks(1, 1, 9, vec![Some(2)]);
    let next_two = tracks(2, 1, 9, vec![Some(3)]);
    let failure = Error::RequestFailed("503 Service Unavailable".to_string());
    let ran = drive(start.get_remaining(ORIGIN), vec![Ok(next_one), Ok(next_two), Err(failure.clone())]);
    assert_eq!(ran.result, Some(Err(failure)));
    assert_eq!(ran.did.len(), 5);
    assert!(matches!(ran.did[4], Did::Fetched(_)));
}

#[test]
fn a_failure_on_the_way_back_ends_get_all_before_it_goes_forward() {
    let start = tracks(2, 2, 6, vec![Some(3)]);
    let failure = Error::RequestFailed("connection reset".to_string());
    let later = tracks(4, 2, 6, vec![Some(5)]);
    let ran = drive(start.get_all(ORIGIN), vec![Err(failure.clone()), Ok(later)]);
    assert_eq!(ran.result, Some(Err(failure)));
    assert_eq!(ran.did, vec![fetch("/v1/tracks?offset=0", &[("limit", "50")])]);
    assert_eq!(ran.left, 1);
}

#[test]
fn every_fetch_of_an_aggregation_asks_for_the_largest_page() {
    assert_eq!(PAGE_MAX_LIMIT, 50);
    let start = tracks(3, 3, 12, vec![Some(1)]);
    let back = tracks(0, 7, 12, vec![Some(0)]);
    let next_one = tracks(6, 1, 8, vec![Some(2)]);
    let next_two = tracks(7, 50, 8, vec![Some(3)]);
    let ran = drive(start.get_all(ORIGIN), vec![Ok(back), Ok(next_one), Ok(next_two)]);
    assert_eq!(ran.result, Some(Ok(vec![Some(0), Some(1), Some(2), Some(3)])));
    let mut fetches = 0;
    for did in &ran.did {
        if let Did::Fetched(request) = did {
            fetches += 1;
            assert_eq!(request.query.last(), Some(&("limit".to_string(), "50".to_string())));
        }
    }
    assert_eq!(fetches, 3);
}

#[test]
fn every_pause_lasts_the_pagination_interval() {
    assert_eq!(PAGINATION_INTERVAL_MS, 100);
    let start = tracks(0, 1, 2, vec![Some(1)]);
    let next_one = tracks(1, 1, 2, vec![Some(2)]);
    match start.get_remaining(ORIGIN) {
        Step::Fetch { fetching, .. } => match fetching.fetched(Ok(next_one)) {
            Step::Pause { millis, pausing } => {
                assert_eq!(millis, 100);
                assert!(matches!(pausing.resumed(), Step::Done(Ok(_))));
            }
            _ => panic!("a fetched page is followed by a pause"),
        },
        _ => panic!("a page with a next link is followed by a fetch"),
    }
}

#[test]
fn a_page_without_links_is_collected_without_a_fetch() {
    let only = tracks(0, 5, 3, vec![Some(1), None, Some(3)]);
    let ran = drive(only.get_remaining(ORIGIN), vec![]);
    assert_eq!(ran.result, Some(Ok(vec![Some(1), None, Some(3)])));
    assert!(ran.did.is_empty());
    let only = tracks(0, 5, 3, vec![Some(1), None, Some(3)]);
    let ran = drive(only.get_all(ORIGIN), vec![]);
    assert_eq!(ran.result, Some(Ok(vec![Some(1), None, Some(3)])));
    assert!(ran.did.is_empty());
}

#[test]
fn get_remaining_does_not_look_back() {
    let start = tracks(2, 2, 4, vec![Some(3), Some(4)]);
    assert!(start.previous.is_some());
    let ran = drive(start.get_remaining(ORIGIN), vec![]);
    assert_eq!(ran.result, Some(Ok(vec![Some(3), Some(4)])));
    assert!(ran.did.is_empty());
}

#[test]
fn no_remaining_pages_from_the_client_ends_the_direction_not_the_aggregation() {
    let start = tracks(2, 2, 6, vec![Some(3)]);
    let after = tracks(4, 2, 6, vec![Some(5)]);
    let ran = drive(start.get_all(ORIGIN), vec![Err(Error::NoRemainingPages), Ok(after)]);
    assert_eq!(ran.result, Some(Ok(vec![Some(3), Some(5)])));
    assert_eq!(
        ran.did,
        vec![
            fetch("/v1/tracks?offset=0", &[("limit", "50")]),
            fetch("/v1/tracks?offset=4", &[("limit", "50")]),
            Did::Paused(100),
        ]
    );
    let start = tracks(0, 2, 6, vec![Some(1)]);
    let ran = drive(start.get_remaining(ORIGIN), vec![Err(Error::NoRemainingPages)]);
    assert_eq!(ran.result, Some(Ok(vec![Some(1)])));
}

#[test]
fn the_total_of_a_page_does_not_end_an_aggregation() {
    let mut start = tracks(0, 2, 2, vec![Some(1), Some(2)]);
    start.next = Some("https://api.example/v1/tracks?offset=2".to_string());
    let mut next_one = tracks(2, 2, 2, vec![Some(3)]);
    next_one.next = None;
    let ran = drive(start.get_remaining(ORIGIN), vec![Ok(next_one)]);
    assert_eq!(ran.result, Some(Ok(vec![Some(1), Some(2), Some(3)])));
}

#[test]
fn an_aggregation_waits_for_the_response_it_asked_for() {
    let start = tracks(0, 2, 6, vec![Some(1)]);
    let ran = drive(start.get_remaining(ORIGIN), vec![]);
    assert_eq!(ran.result, None);
    assert_eq!(ran.did, vec![fetch("/v1/tracks?offset=2", &[("limit", "50")])]);
}

fn plays(after: Option<&str>, before: Option<&str>, items: Vec<Option<u32>>) -> CursorPage<u32, String> {
    CursorPage {
        href: "https://api.example/v1/me/player/recently-played".to_string(),
        limit: 10,
        next: Some("https://api.example/v1/me/player/recently-played?after=0".to_string()),
        cursors: Some(Cursor {
            after: after.map(|t| t.to_string()),
            before: before.map(|t| t.to_string()),
        }),
        total: None,
        items,
        endpoint: "/me/player/recently-played".to_string(),
    }
}

#[test]
fn cursor_pages_are_collected_forward_by_their_after_tokens() {
    let start = plays(Some("200"), None, vec![Some(1)]);
    let next_one = plays(Some("300"), Some("200"), vec![None, Some(2)]);
    let mut next_two = plays(None, Some("300"), vec![Some(3)]);
    next_two.cursors = None;
    let ran = drive(start.get_remaining(), vec![Ok(next_one), Ok(next_two)]);
    assert_eq!(ran.result, Some(Ok(vec![Some(1), None, Some(2), Some(3)])));
    assert_eq!(
        ran.did,
        vec![
            fetch("/me/player/recently-played", &[("after", "200"), ("limit", "50")]),
            Did::Paused(100),
            fetch("/me/player/recently-played", &[("after", "300"), ("limit", "50")]),
            Did::Paused(100),
        ]
    );
}

#[test]
fn cursor_pages_are_collected_both_ways_around_the_starting_page() {
    let earlier = plays(Some("100"), None, vec![Some(0)]);
    let start = plays(Some("200"), Some("100"), vec![Some(1)]);
    let later = plays(None, Some("200"), vec![Some(2)]);
    let ran = drive(start.get_all(), vec![Ok(earlier), Ok(later)]);
    assert_eq!(ran.result, Some(Ok(vec![Some(0), Some(1), Some(2)])));
    assert_eq!(
        ran.did,
        vec![
            fetch("/me/player/recently-played", &[("before", "100"), ("limit", "50")]),
            Did::Paused(100),
            fetch("/me/player/recently-played", &[("after", "200"), ("limit", "50")]),
            Did::Paused(100),
        ]
    );
}

#[test]
fn a_failure_ends_the_aggregation_of_cursor_pages() {
    let start = plays(Some("200"), Some("100"), vec![Some(1)]);
    let earlier = plays(Some("100"), None, vec![Some(0)]);
    let failure = Error::RequestFailed("expected value at line 1 column 1".to_string());
    let ran = drive(start.get_all(), vec![Ok(earlier), Err(failure.clone())]);
    assert_eq!(ran.result, Some(Err(failure)));
}

#[test]
fn two_aggregations_do_not_share_what_they_collect() {
    let a0 = tracks(0, 1, 2, vec![Some(1)]);
    let a1 = tracks(1, 1, 2, vec![Some(2)]);
    let b0 = tracks(0, 1, 2, vec![Some(7)]);
    let b1 = tracks(1, 1, 2, vec![Some(8)]);
    let a = a0.get_remaining(ORIGIN);
    let b = b0.get_remaining(ORIGIN);
    let ran_b = drive(b, vec![Ok(b1)]);
    let ran_a = drive(a, vec![Ok(a1)]);
    assert_eq!(ran_a.result, Some(Ok(vec![Some(1), Some(2)])));
    assert_eq!(ran_b.result, Some(Ok(vec![Some(7), Some(8)])));
}
