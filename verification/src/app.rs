//! Top-level application state: the configuration, the selected tab, the
//! transient warning/error blink state, and the search page. Time enters as
//! a plain millisecond reading supplied by the caller, so the blink logic is
//! exact: a signal is visible for [`BLINK_WINDOW_MS`] after it was raised.

use vstd::prelude::*;

use crate::config::Config;
use crate::events::Key;
use crate::search::SearchPage;

verus! {

/// How long a raised warning or error stays visible, in milliseconds.
pub const BLINK_WINDOW_MS: u64 = 250;

/// Number of tabs the tab bar cycles through.
pub const TAB_COUNT: u8 = 3;

/// Whether a signal raised at `raised` (if one was) is still visible at
/// `now_ms`, both in milliseconds on one monotonic clock.
pub open spec fn blink_active(raised: Option<u64>, now_ms: u64) -> bool {
    raised matches Some(t) && t <= now_ms < t + BLINK_WINDOW_MS
}

pub struct App {
    pub config: Config,
    pub tab: u8,
    /// When the last warning was raised, in milliseconds.
    pub warning_timer: Option<u64>,
    /// When the last error was raised, in milliseconds.
    pub error_timer: Option<u64>,
    pub search_page: SearchPage,
}

impl App {
    pub open spec fn wf(&self) -> bool {
        &&& self.tab < TAB_COUNT
        &&& self.search_page.wf()
    }

    /// A fresh application over the given configuration: first tab, no
    /// signals raised, a fresh search page.
    pub fn new(config: Config) -> (r: Self)
        ensures
            r.wf(),
            r.config == config,
            r.tab == 0,
            r.warning_timer is None,
            r.error_timer is None,
            r.search_page.query_state.active,
            r.search_page.query_state.query@ == Seq::<char>::empty(),
            r.search_page.query_state.cursor == 0,
            r.search_page.results_state is None,
            r.search_page.per_page == 1,
            !r.search_page.expanded_help_message,
    {
        App {
            config,
            tab: 0,
            warning_timer: None,
            error_timer: None,
            search_page: SearchPage::default(),
        }
    }

    /// Raises the warning signal at the given time.
    pub fn warn(&mut self, now_ms: u64)
        ensures
            final(self).warning_timer == Some(now_ms),
            final(self).config == old(self).config,
            final(self).tab == old(self).tab,
            final(self).error_timer == old(self).error_timer,
            final(self).search_page == old(self).search_page,
    {
        self.warning_timer = Some(now_ms);
    }

    /// Raises the error signal at the given time.
    pub fn error(&mut self, now_ms: u64)
        ensures
            final(self).error_timer == Some(now_ms),
            final(self).config == old(self).config,
            final(self).tab == old(self).tab,
            final(self).warning_timer == old(self).warning_timer,
            final(self).search_page == old(self).search_page,
    {
        self.error_timer = Some(now_ms);
    }

    /// Whether the error signal is visible at the given time.
    pub fn is_error(&self, now_ms: u64) -> (r: bool)
        ensures
            r == blink_active(self.error_timer, now_ms),
    {
        match self.error_timer {
            Some(t) => now_ms >= t && now_ms - t < BLINK_WINDOW_MS,
            None => false,
        }
    }

    /// Whether the warning signal is visible at the given time.
    pub fn is_warning(&self, now_ms: u64) -> (r: bool)
        ensures
            r == blink_active(self.warning_timer, now_ms),
    {
        match self.warning_timer {
            Some(t) => now_ms >= t && now_ms - t < BLINK_WINDOW_MS,
            None => false,
        }
    }

    /// The colour the header is painted with at the given time: the error
    /// colour while an error blinks, else the warning colour while a warning
    /// blinks, else the theme's primary colour.
    pub fn primary_color(&self, now_ms: u64) -> (r: [u8; 3])
        ensures
            r@ == if blink_active(self.error_timer, now_ms) {
                self.config.colors.error@
            } else if blink_active(self.warning_timer, now_ms) {
                self.config.colors.warn@
            } else {
                self.config.colors.primary@
            },
    {
        if self.is_error(now_ms) {
            self.config.colors.error
        } else if self.is_warning(now_ms) {
            self.config.colors.warn
        } else {
            self.config.colors.primary
        }
    }
}

/// What the host event loop does with a key after the current page has seen
/// it.
#[derive(PartialEq, Eq, Structural, Clone, Copy, Debug)]
pub enum GlobalAction {
    /// Leave the program.
    Quit,
    /// Switch to the given tab.
    SetTab(u8),
    /// Nothing global; the key is spent.
    Ignore,
}

/// The global key bindings: one function key always quits; every other
/// binding applies only when the page reported the key unused.
pub open spec fn spec_global_key_action(tab: u8, key: Key, page_used_it: bool) -> GlobalAction {
    if key == Key::Function(4) {
        GlobalAction::Quit
    } else if page_used_it {
        GlobalAction::Ignore
    } else {
        match key {
            Key::Char(c) => if c == 'q' {
                GlobalAction::Quit
            } else if c == '1' {
                GlobalAction::SetTab(0)
            } else if c == '2' {
                GlobalAction::SetTab(1)
            } else if c == '3' {
                GlobalAction::SetTab(2)
            } else {
                GlobalAction::Ignore
            },
            Key::Esc => GlobalAction::Quit,
            Key::Tab => GlobalAction::SetTab((((tab as int) + 1) % (TAB_COUNT as int)) as u8),
            Key::BackTab => GlobalAction::SetTab(
                (((tab as int) + (TAB_COUNT as int) - 1) % (TAB_COUNT as int)) as u8,
            ),
            _ => GlobalAction::Ignore,
        }
    }
}

/// Decides what the host event loop does with a key after the current page
/// has seen it; `page_used_it` is what the page's own dispatch reported.
pub fn global_key_action(tab: u8, key: Key, page_used_it: bool) -> (r: GlobalAction)
    requires
        tab < TAB_COUNT,
    ensures
        r == spec_global_key_action(tab, key, page_used_it),
{
    if key == Key::Function(4) {
        return GlobalAction::Quit;
    }
    if page_used_it {
        return GlobalAction::Ignore;
    }
    match key {
        Key::Char(c) => {
            if c == 'q' {
                GlobalAction::Quit
            } else if c == '1' {
                GlobalAction::SetTab(0)
            } else if c == '2' {
                GlobalAction::SetTab(1)
            } else if c == '3' {
                GlobalAction::SetTab(2)
            } else {
                GlobalAction::Ignore
            }
        },
        Key::Esc => GlobalAction::Quit,
        Key::Tab => GlobalAction::SetTab((tab + 1) % TAB_COUNT),
        Key::BackTab => GlobalAction::SetTab((tab + TAB_COUNT - 1) % TAB_COUNT),
        _ => GlobalAction::Ignore,
    }
}

} // verus!
