//! The fetch coordinator: dispatch decisions, folding batches in, the
//! exhausted flag, failures, and the two-page scenario end to end.

use cratui::app::App;
use cratui::config::Config;
use cratui::events::{InputEvent, Key};
use cratui::registry::{Crate, Meta, SearchResponse};
use cratui::search::{event, fetch_complete, fetch_tick};

fn item(id: &str) -> Crate {
    Crate {
        id: id.to_string(),
        description: None,
        downloads: 0,
        recent_downloads: 0,
        repository: None,
        max_version: "1.0.0".to_string(),
        max_stable_version: None,
    }
}

fn batch(ids: &[&str], more: bool) -> SearchResponse {
    SearchResponse {
        crates: ids.iter().map(|id| item(id)).collect(),
        meta: Meta {
            next_page: if more { Some("next".to_string()) } else { None },
            prev_page: None,
            total: ids.len(),
        },
    }
}

/// An app that committed the query, with the given per-page capacity.
fn committed_app(query: &str, height: u16) -> App {
    let mut app = App::new(Config::default());
    event(&mut app, InputEvent::Resize(80, height), 0);
    for c in query.chars() {
        event(&mut app, InputEvent::Key(Key::Char(c)), 0);
    }
    event(&mut app, InputEvent::Key(Key::Enter), 0);
    app
}

fn selection(app: &App) -> (usize, usize) {
    let s = app.search_page.results_state.as_ref().unwrap();
    (s.page, s.index)
}

#[test]
fn two_batches_then_exhausted_and_wraparound() {
    // Query "serde", page size 5 (height 29 -> (29-13)/4+1 = 5). The first
    // fetch returns 5 items with more available; the second returns 2 with
    // no more. Two pages, exhausted, 7 selectable items, and advancing from
    // the last item of page 1 wraps to (0, 0).
    let mut app = committed_app("serde", 29);
    assert_eq!(app.search_page.per_page, 5);

    let req = fetch_tick(&mut app).unwrap();
    assert_eq!(req.page, 0);
    assert_eq!(req.limit, 5);
    assert_eq!(req.query, "serde".chars().collect::<Vec<char>>());
    fetch_complete(&mut app, Some(batch(&["a", "b", "c", "d", "e"], true)), 0);
    {
        let s = app.search_page.results_state.as_ref().unwrap();
        assert!(!s.loaded_all);
        assert!(s.pending_fetch.is_none());
    }

    let req = fetch_tick(&mut app).unwrap();
    assert_eq!(req.page, 1);
    fetch_complete(&mut app, Some(batch(&["f", "g"], false)), 0);

    let s = app.search_page.results_state.as_ref().unwrap();
    assert_eq!(s.results.len(), 2);
    assert!(s.loaded_all);
    let total: usize = s.results.iter().map(|p| p.len()).sum();
    assert_eq!(total, 7);

    // No further fetch once exhausted.
    assert!(fetch_tick(&mut app).is_none());

    // Walk to the last item of page 1, then wrap.
    for _ in 0..6 {
        event(&mut app, InputEvent::Key(Key::Down), 0);
    }
    assert_eq!(selection(&app), (1, 1));
    event(&mut app, InputEvent::Key(Key::Down), 0);
    assert_eq!(selection(&app), (0, 0));
}

#[test]
fn at_most_one_fetch_in_flight() {
    let mut app = committed_app("q", 29);
    let first = fetch_tick(&mut app);
    assert!(first.is_some());
    // A second consultation while one is in flight starts nothing.
    assert!(fetch_tick(&mut app).is_none());
    assert!(fetch_tick(&mut app).is_none());
    fetch_complete(&mut app, Some(batch(&["a"], true)), 0);
    // Folded in: the next pass may fetch again, for the next page.
    let next = fetch_tick(&mut app).unwrap();
    assert_eq!(next.page, 1);
}

#[test]
fn no_fetch_without_a_committed_search() {
    let mut app = App::new(Config::default());
    assert!(fetch_tick(&mut app).is_none());
}

#[test]
fn failed_fetch_clears_pending_raises_error_and_retries_same_page() {
    let mut app = committed_app("q", 29);
    let req = fetch_tick(&mut app).unwrap();
    assert_eq!(req.page, 0);
    fetch_complete(&mut app, None, 1000);
    assert!(app.is_error(1000));
    let s = app.search_page.results_state.as_ref().unwrap();
    assert!(s.pending_fetch.is_none());
    assert!(!s.loaded_all);
    assert_eq!(s.results.len(), 0);
    // The next pass retries the same page number.
    let retry = fetch_tick(&mut app).unwrap();
    assert_eq!(retry.page, 0);
}

#[test]
fn empty_successful_batch_is_appended_not_dropped() {
    let mut app = committed_app("q", 29);
    fetch_tick(&mut app);
    fetch_complete(&mut app, Some(batch(&[], true)), 0);
    let s = app.search_page.results_state.as_ref().unwrap();
    assert_eq!(s.results.len(), 1);
    assert_eq!(s.results[0].len(), 0);
    assert!(!s.loaded_all);
}

#[test]
fn exhausted_at_configured_page_cap() {
    let mut app = committed_app("q", 29);
    app.config.search.max_pages = 2;
    fetch_tick(&mut app);
    fetch_complete(&mut app, Some(batch(&["a"], true)), 0);
    assert!(!app.search_page.results_state.as_ref().unwrap().loaded_all);
    fetch_tick(&mut app);
    // The registry still reports more, but the cap of 2 pages is reached.
    fetch_complete(&mut app, Some(batch(&["b"], true)), 0);
    let s = app.search_page.results_state.as_ref().unwrap();
    assert_eq!(s.results.len(), 2);
    assert!(s.loaded_all);
    assert!(fetch_tick(&mut app).is_none());
}

#[test]
fn not_exhausted_before_cap_or_final_batch() {
    let mut app = committed_app("q", 29);
    for page in 0..3 {
        let req = fetch_tick(&mut app).unwrap();
        assert_eq!(req.page, page);
        fetch_complete(&mut app, Some(batch(&["x"], true)), 0);
        assert!(!app.search_page.results_state.as_ref().unwrap().loaded_all);
    }
}

#[test]
fn stale_completion_is_discarded() {
    let mut app = committed_app("old", 29);
    fetch_tick(&mut app);
    // A new search replaces the results state while a fetch is in flight.
    event(&mut app, InputEvent::Key(Key::Char('s')), 0);
    for c in "new".chars() {
        event(&mut app, InputEvent::Key(Key::Char(c)), 0);
    }
    event(&mut app, InputEvent::Key(Key::Enter), 0);
    assert!(app.search_page.results_state.as_ref().unwrap().pending_fetch.is_none());
    // The old fetch's batch arrives with nothing pending: discarded whole.
    fetch_complete(&mut app, Some(batch(&["a", "b"], true)), 0);
    let s = app.search_page.results_state.as_ref().unwrap();
    assert_eq!(s.results.len(), 0);
    // Re-entering editing keeps the old text; typing appended to it.
    assert_eq!(s.query, "oldnew".chars().collect::<Vec<char>>());
}

#[test]
fn new_search_fetches_with_current_capacity() {
    let mut app = committed_app("q", 17);
    // Height 17 -> (17-13)/4+1 = 2 items per page.
    let req = fetch_tick(&mut app).unwrap();
    assert_eq!(req.limit, 2);
}
