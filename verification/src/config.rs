//! User configuration: event-loop tick rate, colour theme, the persisted
//! favourites list, and the search page cap. Loading and saving the
//! configuration file is the embedding binary's job; the library only holds
//! the values and states their defaults.

use vstd::prelude::*;

verus! {

/// Event-loop timing settings.
pub struct Terminal {
    /// Milliseconds between draw passes when idle.
    pub tick_rate: u8,
}

impl Default for Terminal {
    fn default() -> (r: Self)
        ensures
            r.tick_rate == 250,
    {
        Terminal { tick_rate: 250 }
    }
}

/// Colour theme, each colour as red, green and blue channels.
pub struct Colors {
    pub primary: [u8; 3],
    pub secondary: [u8; 3],
    pub warn: [u8; 3],
    pub error: [u8; 3],
}

impl Default for Colors {
    fn default() -> (r: Self)
        ensures
            r.primary@ == seq![238u8, 111u8, 248u8],
            r.secondary@ == seq![255u8, 0u8, 255u8],
            r.warn@ == seq![230u8, 126u8, 34u8],
            r.error@ == seq![255u8, 3u8, 3u8],
    {
        let r = Colors {
            primary: [238, 111, 248],
            secondary: [255, 0, 255],
            warn: [230, 126, 34],
            error: [255, 3, 3],
        };
        proof {
            assert(r.primary@ =~= seq![238u8, 111u8, 248u8]);
            assert(r.secondary@ =~= seq![255u8, 0u8, 255u8]);
            assert(r.warn@ =~= seq![230u8, 126u8, 34u8]);
            assert(r.error@ =~= seq![255u8, 3u8, 3u8]);
        }
        r
    }
}

/// Identifiers of packages the user marked as favourites; append-only while
/// the program runs, persisted by the embedding binary on exit.
pub struct Favourites {
    pub crates: Vec<String>,
}

impl Default for Favourites {
    fn default() -> (r: Self)
        ensures
            r.crates@ == Seq::<String>::empty(),
    {
        Favourites { crates: Vec::new() }
    }
}

/// Search limits.
pub struct Search {
    /// Maximum number of result pages to fetch for one query; once reached,
    /// the results are treated as exhausted.
    pub max_pages: u8,
}

impl Default for Search {
    fn default() -> (r: Self)
        ensures
            r.max_pages == 20,
    {
        Search { max_pages: 20 }
    }
}

/// The whole user configuration.
pub struct Config {
    pub terminal: Terminal,
    pub colors: Colors,
    pub favourites: Favourites,
    pub search: Search,
}

impl Default for Config {
    fn default() -> (r: Self)
        ensures
            r.terminal.tick_rate == 250,
            r.colors.primary@ == seq![238u8, 111u8, 248u8],
            r.colors.secondary@ == seq![255u8, 0u8, 255u8],
            r.colors.warn@ == seq![230u8, 126u8, 34u8],
            r.colors.error@ == seq![255u8, 3u8, 3u8],
            r.favourites.crates@ == Seq::<String>::empty(),
            r.search.max_pages == 20,
    {
        Config {
            terminal: Terminal::default(),
            colors: Colors::default(),
            favourites: Favourites::default(),
            search: Search::default(),
        }
    }
}

} // verus!
