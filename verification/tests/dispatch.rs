//! Event dispatch: query editing, mode changes, actions on the selected
//! item, warning/error blinks, resizes, and the global key bindings.

use cratui::app::{global_key_action, App, GlobalAction, BLINK_WINDOW_MS};
use cratui::config::Config;
use cratui::events::{InputEvent, Key};
use cratui::manage;
use cratui::registry::{search_request, Crate, Meta, SearchResponse};
use cratui::search::{event, fetch_complete, fetch_tick, SideAction};

fn key(app: &mut App, k: Key) -> cratui::search::Outcome {
    event(app, InputEvent::Key(k), 0)
}

fn item_with(id: &str, repo: Option<&str>, stable: Option<&str>) -> Crate {
    Crate {
        id: id.to_string(),
        description: Some("a package".to_string()),
        downloads: 10,
        recent_downloads: 2,
        repository: repo.map(|r| r.to_string()),
        max_version: "2.0.0-rc.1".to_string(),
        max_stable_version: stable.map(|v| v.to_string()),
    }
}

/// An app in navigation mode with one fetched batch selected at its first
/// item.
fn app_with_results(items: Vec<Crate>) -> App {
    let mut app = App::new(Config::default());
    event(&mut app, InputEvent::Resize(80, 29), 0);
    key(&mut app, Key::Enter);
    fetch_tick(&mut app);
    fetch_complete(
        &mut app,
        Some(SearchResponse {
            crates: items,
            meta: Meta { next_page: None, prev_page: None, total: 1 },
        }),
        0,
    );
    app
}

#[test]
fn typing_edits_the_query_at_the_cursor() {
    let mut app = App::new(Config::default());
    for c in "sere".chars() {
        key(&mut app, Key::Char(c));
    }
    key(&mut app, Key::Left);
    key(&mut app, Key::Char('d'));
    let q = &app.search_page.query_state;
    assert_eq!(q.query, "serde".chars().collect::<Vec<char>>());
    assert_eq!(q.cursor, 4);
}

#[test]
fn backspace_and_delete_edit_around_the_cursor() {
    let mut app = App::new(Config::default());
    for c in "abcd".chars() {
        key(&mut app, Key::Char(c));
    }
    key(&mut app, Key::Left);
    key(&mut app, Key::Backspace);
    assert_eq!(app.search_page.query_state.query, vec!['a', 'b', 'd']);
    assert_eq!(app.search_page.query_state.cursor, 2);
    key(&mut app, Key::Delete);
    assert_eq!(app.search_page.query_state.query, vec!['a', 'b']);
    assert_eq!(app.search_page.query_state.cursor, 2);
}

#[test]
fn cursor_stops_at_both_ends() {
    let mut app = App::new(Config::default());
    key(&mut app, Key::Left);
    assert_eq!(app.search_page.query_state.cursor, 0);
    key(&mut app, Key::Backspace);
    assert_eq!(app.search_page.query_state.query.len(), 0);
    key(&mut app, Key::Char('x'));
    key(&mut app, Key::Right);
    assert_eq!(app.search_page.query_state.cursor, 1);
    key(&mut app, Key::Delete);
    assert_eq!(app.search_page.query_state.query, vec!['x']);
}

#[test]
fn enter_commits_a_fresh_results_state() {
    let mut app = App::new(Config::default());
    for c in "toml".chars() {
        key(&mut app, Key::Char(c));
    }
    let r = key(&mut app, Key::Enter);
    assert!(!r.unhandled);
    assert!(!app.search_page.query_state.active);
    let s = app.search_page.results_state.as_ref().unwrap();
    assert_eq!(s.query, "toml".chars().collect::<Vec<char>>());
    assert_eq!(s.results.len(), 0);
    assert!(!s.loaded_all);
    assert!(s.pending_fetch.is_none());
}

#[test]
fn escape_cancels_editing_and_keeps_results() {
    let mut app = app_with_results(vec![item_with("serde", None, None)]);
    key(&mut app, Key::Char('s'));
    assert!(app.search_page.query_state.active);
    key(&mut app, Key::Esc);
    assert!(!app.search_page.query_state.active);
    // The previous results are still there.
    assert!(app.search_page.results_state.is_some());
    assert_eq!(
        app.search_page.results_state.as_ref().unwrap().results[0][0].id,
        "serde"
    );
}

#[test]
fn unknown_keys_pass_through_in_both_modes() {
    let mut app = App::new(Config::default());
    assert!(key(&mut app, Key::Tab).unhandled);
    key(&mut app, Key::Esc);
    assert!(key(&mut app, Key::Char('z')).unhandled);
    assert!(key(&mut app, Key::Enter).unhandled);
}

#[test]
fn help_toggle_flips_the_flag() {
    let mut app = App::new(Config::default());
    key(&mut app, Key::Esc);
    assert!(!app.search_page.expanded_help_message);
    key(&mut app, Key::Char('?'));
    assert!(app.search_page.expanded_help_message);
    key(&mut app, Key::Char('?'));
    assert!(!app.search_page.expanded_help_message);
}

#[test]
fn add_without_selection_warns_and_touches_nothing() {
    // No item selected, "add" invoked: no manifest action is requested, the
    // warning blinks, and it clears after its window.
    let mut app = App::new(Config::default());
    key(&mut app, Key::Esc);
    let r = event(&mut app, InputEvent::Key(Key::Char('a')), 5_000);
    assert!(!r.unhandled);
    assert!(r.action == SideAction::Nothing);
    assert!(app.is_warning(5_000));
    assert!(app.is_warning(5_000 + BLINK_WINDOW_MS - 1));
    assert!(!app.is_warning(5_000 + BLINK_WINDOW_MS));
}

#[test]
fn link_and_manifest_actions_without_selection_warn() {
    for k in ['c', 'd', 'g', 'r', 'i', 'f'] {
        let mut app = App::new(Config::default());
        key(&mut app, Key::Esc);
        let r = event(&mut app, InputEvent::Key(Key::Char(k)), 7);
        assert!(!r.unhandled);
        assert!(r.action == SideAction::Nothing);
        assert!(app.is_warning(7));
    }
}

#[test]
fn open_actions_carry_the_selected_id() {
    let mut app = app_with_results(vec![item_with("serde", Some("https://example.org/serde"), None)]);
    let r = key(&mut app, Key::Char('c'));
    assert!(r.action == SideAction::OpenCratesPage("serde".to_string()));
    let r = key(&mut app, Key::Char('d'));
    assert!(r.action == SideAction::OpenDocsPage("serde".to_string()));
    let r = key(&mut app, Key::Char('g'));
    assert!(r.action == SideAction::OpenRepository("https://example.org/serde".to_string()));
}

#[test]
fn repository_action_warns_when_the_item_has_none() {
    let mut app = app_with_results(vec![item_with("serde", None, None)]);
    let r = event(&mut app, InputEvent::Key(Key::Char('g')), 42);
    assert!(r.action == SideAction::Nothing);
    assert!(app.is_warning(42));
}

#[test]
fn add_prefers_the_stable_version() {
    let mut app = app_with_results(vec![item_with("serde", None, Some("1.0.200"))]);
    let r = key(&mut app, Key::Char('a'));
    assert!(
        r.action == SideAction::AddDependency("serde".to_string(), "1.0.200".to_string())
    );
}

#[test]
fn add_falls_back_to_the_newest_version() {
    let mut app = app_with_results(vec![item_with("tokio", None, None)]);
    let r = key(&mut app, Key::Char('a'));
    assert!(
        r.action == SideAction::AddDependency("tokio".to_string(), "2.0.0-rc.1".to_string())
    );
}

#[test]
fn remove_and_install_carry_the_selected_id() {
    let mut app = app_with_results(vec![item_with("anyhow", None, None)]);
    let r = key(&mut app, Key::Char('r'));
    assert!(r.action == SideAction::RemoveDependency("anyhow".to_string()));
    let r = key(&mut app, Key::Char('i'));
    assert!(r.action == SideAction::Install("anyhow".to_string()));
}

#[test]
fn favourite_appends_the_selected_id() {
    let mut app = app_with_results(vec![item_with("serde", None, None)]);
    let r = key(&mut app, Key::Char('f'));
    assert!(r.action == SideAction::Nothing);
    assert_eq!(app.config.favourites.crates, vec!["serde".to_string()]);
    key(&mut app, Key::Char('f'));
    assert_eq!(
        app.config.favourites.crates,
        vec!["serde".to_string(), "serde".to_string()]
    );
}

#[test]
fn resize_below_minimum_height_is_unhandled() {
    let mut app = App::new(Config::default());
    let before = app.search_page.per_page;
    let r = event(&mut app, InputEvent::Resize(80, 12), 0);
    assert!(r.unhandled);
    assert_eq!(app.search_page.per_page, before);
}

#[test]
fn resize_recomputes_per_page_from_height() {
    let mut app = App::new(Config::default());
    event(&mut app, InputEvent::Resize(80, 13), 0);
    assert_eq!(app.search_page.per_page, 1);
    event(&mut app, InputEvent::Resize(80, 29), 0);
    assert_eq!(app.search_page.per_page, 5);
    event(&mut app, InputEvent::Resize(80, 32), 0);
    assert_eq!(app.search_page.per_page, 5);
    event(&mut app, InputEvent::Resize(80, 33), 0);
    assert_eq!(app.search_page.per_page, 6);
}

#[test]
fn error_blink_outranks_warning_blink() {
    let mut app = App::new(Config::default());
    let primary = app.config.colors.primary;
    let warn = app.config.colors.warn;
    let error = app.config.colors.error;
    assert_eq!(app.primary_color(0), primary);
    app.warn(100);
    assert_eq!(app.primary_color(100), warn);
    app.error(120);
    assert_eq!(app.primary_color(120), error);
    // The error expires first here; the warning may still be visible.
    assert_eq!(app.primary_color(120 + BLINK_WINDOW_MS), primary);
    assert!(!app.is_warning(100 + BLINK_WINDOW_MS));
}

#[test]
fn global_keys_quit_switch_and_cycle_tabs() {
    assert_eq!(global_key_action(0, Key::Function(4), true), GlobalAction::Quit);
    assert_eq!(global_key_action(0, Key::Function(4), false), GlobalAction::Quit);
    assert_eq!(global_key_action(0, Key::Char('q'), false), GlobalAction::Quit);
    assert_eq!(global_key_action(0, Key::Esc, false), GlobalAction::Quit);
    assert_eq!(global_key_action(0, Key::Char('q'), true), GlobalAction::Ignore);
    assert_eq!(global_key_action(0, Key::Tab, false), GlobalAction::SetTab(1));
    assert_eq!(global_key_action(2, Key::Tab, false), GlobalAction::SetTab(0));
    assert_eq!(global_key_action(0, Key::BackTab, false), GlobalAction::SetTab(2));
    assert_eq!(global_key_action(2, Key::BackTab, false), GlobalAction::SetTab(1));
    assert_eq!(global_key_action(1, Key::Char('1'), false), GlobalAction::SetTab(0));
    assert_eq!(global_key_action(1, Key::Char('2'), false), GlobalAction::SetTab(1));
    assert_eq!(global_key_action(1, Key::Char('3'), false), GlobalAction::SetTab(2));
    assert_eq!(global_key_action(1, Key::Char('x'), false), GlobalAction::Ignore);
}

#[test]
fn manage_page_uses_no_events() {
    let mut app = App::new(Config::default());
    assert!(manage::event(&mut app, InputEvent::Key(Key::Char('a'))));
    assert!(manage::event(&mut app, InputEvent::Resize(80, 20)));
}

#[test]
fn search_request_caps_the_limit_and_pages_from_one() {
    let q: Vec<char> = "serde".chars().collect();
    let r = search_request(&q, 0, 5);
    assert_eq!(r.page, 1);
    assert_eq!(r.limit, 5);
    assert_eq!(r.query, q);
    let r = search_request(&q, 7, 250);
    assert_eq!(r.page, 8);
    assert_eq!(r.limit, 100);
}

#[test]
fn default_config_matches_the_documented_values() {
    let c = Config::default();
    assert_eq!(c.terminal.tick_rate, 250);
    assert_eq!(c.colors.primary, [238, 111, 248]);
    assert_eq!(c.colors.secondary, [255, 0, 255]);
    assert_eq!(c.colors.warn, [230, 126, 34]);
    assert_eq!(c.colors.error, [255, 3, 3]);
    assert_eq!(c.search.max_pages, 20);
    assert!(c.favourites.crates.is_empty());
}
