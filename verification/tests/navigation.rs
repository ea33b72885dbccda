//! Navigation arithmetic: wraparound, clamping, full cycles, inverses.

use cratui::registry::Crate;
use cratui::search::{ResultsState, SearchPage};

fn item(id: &str) -> Crate {
    Crate {
        id: id.to_string(),
        description: None,
        downloads: 0,
        recent_downloads: 0,
        repository: None,
        max_version: "1.0.0".to_string(),
        max_stable_version: None,
    }
}

fn page_of(ids: &[&str]) -> Vec<Crate> {
    ids.iter().map(|id| item(id)).collect()
}

/// A search page holding 7 items across pages of sizes [5, 2].
fn seven_item_page() -> SearchPage {
    let mut page = SearchPage::default();
    page.per_page = 5;
    page.results_state = Some(ResultsState {
        query: "serde".chars().collect(),
        results: vec![
            page_of(&["a", "b", "c", "d", "e"]),
            page_of(&["f", "g"]),
        ],
        page: 0,
        index: 0,
        loaded_all: true,
        pending_fetch: None,
    });
    page
}

fn selection(page: &SearchPage) -> (usize, usize) {
    let s = page.results_state.as_ref().unwrap();
    (s.page, s.index)
}

#[test]
fn next_index_walks_within_a_page() {
    let mut page = seven_item_page();
    page.next_index();
    assert_eq!(selection(&page), (0, 1));
    page.next_index();
    assert_eq!(selection(&page), (0, 2));
}

#[test]
fn next_index_crosses_page_boundary() {
    let mut page = seven_item_page();
    for _ in 0..5 {
        page.next_index();
    }
    assert_eq!(selection(&page), (1, 0));
}

#[test]
fn next_index_wraps_from_last_item_to_first() {
    let mut page = seven_item_page();
    for _ in 0..6 {
        page.next_index();
    }
    assert_eq!(selection(&page), (1, 1));
    page.next_index();
    assert_eq!(selection(&page), (0, 0));
}

#[test]
fn full_cycle_returns_to_start() {
    // Advancing once per item comes back to the starting selection,
    // from any starting selection.
    for start in 0..7 {
        let mut page = seven_item_page();
        for _ in 0..start {
            page.next_index();
        }
        let origin = selection(&page);
        for _ in 0..7 {
            page.next_index();
        }
        assert_eq!(selection(&page), origin);
    }
}

#[test]
fn retreat_undoes_advance_everywhere() {
    for start in 0..7 {
        let mut page = seven_item_page();
        for _ in 0..start {
            page.next_index();
        }
        let origin = selection(&page);
        page.next_index();
        page.previous_index();
        assert_eq!(selection(&page), origin);
    }
}

#[test]
fn previous_index_wraps_to_actual_last_item() {
    // From the very first item, retreating lands on the last item of the
    // last page — clamped to that page's real item count (2), not to the
    // page capacity (5).
    let mut page = seven_item_page();
    page.previous_index();
    assert_eq!(selection(&page), (1, 1));
}

#[test]
fn previous_index_crossing_pages_clamps_to_page_length() {
    // Sizes [2, 5]: from (1, 0), retreating must land on (0, 1) — the last
    // item that exists on page 0.
    let mut page = SearchPage::default();
    page.per_page = 5;
    page.results_state = Some(ResultsState {
        query: vec!['q'],
        results: vec![page_of(&["a", "b"]), page_of(&["c", "d", "e", "f", "g"])],
        page: 1,
        index: 0,
        loaded_all: true,
        pending_fetch: None,
    });
    page.previous_index();
    assert_eq!(selection(&page), (0, 1));
}

#[test]
fn next_page_clamps_index_on_short_last_page() {
    let mut page = seven_item_page();
    for _ in 0..4 {
        page.next_index();
    }
    assert_eq!(selection(&page), (0, 4));
    page.next_page();
    // Landing on the 2-item page with index 4: clamped to its last item.
    assert_eq!(selection(&page), (1, 1));
}

#[test]
fn next_page_wraps_to_first_page() {
    let mut page = seven_item_page();
    page.next_page();
    assert_eq!(selection(&page), (1, 0));
    page.next_page();
    assert_eq!(selection(&page), (0, 0));
}

#[test]
fn previous_page_wraps_and_clamps() {
    let mut page = seven_item_page();
    for _ in 0..4 {
        page.next_index();
    }
    assert_eq!(selection(&page), (0, 4));
    page.previous_page();
    // Wrap to the last page; index 4 clamped to its last item.
    assert_eq!(selection(&page), (1, 1));
}

#[test]
fn navigation_ignores_missing_results() {
    let mut page = SearchPage::default();
    page.next_index();
    page.previous_index();
    page.next_page();
    page.previous_page();
    assert!(page.results_state.is_none());
}

#[test]
fn navigation_ignores_empty_results() {
    let mut page = SearchPage::default();
    page.results_state = Some(ResultsState {
        query: vec![],
        results: vec![],
        page: 0,
        index: 0,
        loaded_all: false,
        pending_fetch: None,
    });
    page.next_index();
    page.previous_index();
    page.next_page();
    page.previous_page();
    assert_eq!(selection(&page), (0, 0));
}

#[test]
fn selected_crate_returns_item_at_selection() {
    let mut page = seven_item_page();
    for _ in 0..5 {
        page.next_index();
    }
    let selected = page.selected_crate().unwrap();
    assert_eq!(selected.id, "f");
}

#[test]
fn selected_crate_none_without_results() {
    let page = SearchPage::default();
    assert!(page.selected_crate().is_none());
}
