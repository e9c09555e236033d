use spotify_rs::error::Error;
use spotify_rs::model::Page;

const ORIGIN: &str = "https://api.example";

fn offset_page(next: Option<&str>, previous: Option<&str>, items: Vec<Option<u32>>) -> Page<u32> {
    Page {
        href: "https://api.example/v1/tracks?offset=50&limit=20".to_string(),
        limit: 20,
        next: next.map(|url| url.to_string()),
        offset: 50,
        previous: previous.map(|url| url.to_string()),
        total: 120,
        items,
    }
}

#[test]
fn get_next_without_next_has_no_remaining_pages() {
    let last = offset_page(None, Some("https://api.example/v1/tracks?offset=30"), vec![Some(1)]);
    assert_eq!(last.get_next(ORIGIN), Err(Error::NoRemainingPages));
}

#[test]
fn get_previous_without_previous_has_no_remaining_pages() {
    let first = offset_page(Some("https://api.example/v1/tracks?offset=70"), None, vec![Some(1)]);
    assert_eq!(first.get_previous(ORIGIN), Err(Error::NoRemainingPages));
}

#[test]
fn a_page_without_links_has_no_remaining_pages_either_way() {
    let only = offset_page(None, None, vec![]);
    assert_eq!(only.get_next(ORIGIN), Err(Error::NoRemainingPages));
    assert_eq!(only.get_previous(ORIGIN), Err(Error::NoRemainingPages));
}

#[test]
fn get_next_strips_the_origin_once() {
    let page = offset_page(Some("https://api.example/v1/tracks?offset=50"), None, vec![Some(1)]);
    let request = page.get_next("https://api.example").unwrap();
    assert_eq!(request.path, "/v1/tracks?offset=50");
    assert!(!request.path.contains("https://api.example"));
}

#[test]
fn get_next_asks_for_the_size_of_the_page() {
    let page = offset_page(Some("https://api.example/v1/tracks?offset=70"), None, vec![Some(1)]);
    let request = page.get_next(ORIGIN).unwrap();
    assert_eq!(request.query, vec![("limit".to_string(), "20".to_string())]);
}

#[test]
fn get_previous_follows_the_previous_link() {
    let page = offset_page(
        Some("https://api.example/v1/tracks?offset=70"),
        Some("https://api.example/v1/tracks?offset=30"),
        vec![Some(1)],
    );
    let request = page.get_previous(ORIGIN).unwrap();
    assert_eq!(request.path, "/v1/tracks?offset=30");
    assert_eq!(request.query, vec![("limit".to_string(), "20".to_string())]);
}

#[test]
fn a_link_to_another_origin_is_kept_whole() {
    let page = offset_page(Some("https://other.example/v1/tracks?offset=70"), None, vec![]);
    let request = page.get_next(ORIGIN).unwrap();
    assert_eq!(request.path, "https://other.example/v1/tracks?offset=70");
}

#[test]
fn a_single_step_leaves_the_page_as_it_was() {
    let page = offset_page(Some("https://api.example/v1/tracks?offset=70"), None, vec![Some(4), None]);
    let before = page.clone();
    let _ = page.get_next(ORIGIN);
    let _ = page.get_previous(ORIGIN);
    assert_eq!(page, before);
}

#[test]
fn filtered_items_drops_the_holes_and_keeps_the_order() {
    let page = offset_page(None, None, vec![Some(7), None, Some(3)]);
    assert_eq!(page.filtered_items(), vec![7, 3]);
}

#[test]
fn filtered_items_twice_gives_the_same_and_leaves_the_page_alone() {
    let page = offset_page(None, None, vec![None, Some(7), None, Some(3), Some(7)]);
    let before = page.clone();
    let once = page.filtered_items();
    let twice = page.filtered_items();
    assert_eq!(once, vec![7, 3, 7]);
    assert_eq!(once, twice);
    assert_eq!(page, before);
    assert_eq!(page.items[0], None);
    let again = offset_page(None, None, once.iter().map(|value| Some(*value)).collect());
    assert_eq!(again.filtered_items(), once);
}

#[test]
fn filtered_items_of_holes_only_is_empty() {
    let page = offset_page(None, None, vec![None, None]);
    assert_eq!(page.filtered_items(), Vec::<u32>::new());
    let empty = offset_page(None, None, vec![]);
    assert_eq!(empty.filtered_items(), Vec::<u32>::new());
}

#[test]
fn filtered_items_clones_values_that_own_memory() {
    let page = Page {
        href: String::new(),
        limit: 2,
        next: None,
        offset: 0,
        previous: None,
        total: 2,
        items: vec![Some("a".to_string()), None, Some("b".to_string())],
    };
    assert_eq!(page.filtered_items(), vec!["a".to_string(), "b".to_string()]);
    assert_eq!(page.items.len(), 3);
}
