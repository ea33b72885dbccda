//! The navigation engine's and fetch coordinator's laws, stated over the
//! same spec functions the executable functions' contracts use, and proved
//! once and for all:
//!
//! - any sequence of navigation moves keeps the selection on an existing
//!   item;
//! - advancing the selection as many times as there are items returns it to
//!   where it started;
//! - retreating exactly undoes advancing;
//! - re-flowing twice to one page size is the same as re-flowing once, for
//!   the pages and for the selection;
//! - the fetch coordinator keeps at most one fetch in flight, always for the
//!   next unfetched page of a query that is not exhausted, under any
//!   interleaving of draw passes and fetch completions.

use vstd::prelude::*;
use vstd::arithmetic::div_mod::{
    lemma_fundamental_div_mod, lemma_fundamental_div_mod_converse_mod,
    lemma_mod_add_multiples_vanish, lemma_mod_bound, lemma_mod_multiples_basic, lemma_small_mod,
};
use vstd::arithmetic::mul::{lemma_mul_is_commutative, lemma_mul_is_distributive_add};

use crate::registry::Crate;
use crate::search::{
    advanced, chunks_of, lemma_chunks_structure, nav_wf, page_advanced, page_retreated,
    reflow_selection, retreated,
};

verus! {

// ---------------------------------------------------------------------------
// Navigation: validity under any sequence of moves
// ---------------------------------------------------------------------------

/// No fetched batch is empty: the common case, under which a valid selection
/// always addresses an item.
pub open spec fn no_empty_pages(pages: Seq<Seq<Crate>>) -> bool {
    forall|p: int| 0 <= p < pages.len() ==> #[trigger] pages[p].len() > 0
}

/// The selection addresses an existing item.
pub open spec fn addresses_item(pages: Seq<Seq<Crate>>, page: int, index: int) -> bool {
    &&& 0 <= page < pages.len()
    &&& 0 <= index < pages[page].len()
}

/// One navigation move.
pub enum NavMove {
    AdvanceIndex,
    RetreatIndex,
    AdvancePage,
    RetreatPage,
}

/// The selection after one move.
pub open spec fn nav_step(pages: Seq<Seq<Crate>>, page: int, index: int, m: NavMove) -> (
    int,
    int,
) {
    match m {
        NavMove::AdvanceIndex => advanced(pages, page, index),
        NavMove::RetreatIndex => retreated(pages, page, index),
        NavMove::AdvancePage => page_advanced(pages, page, index),
        NavMove::RetreatPage => page_retreated(pages, page, index),
    }
}

/// The selection after a whole sequence of moves, first move first.
pub open spec fn nav_steps(pages: Seq<Seq<Crate>>, page: int, index: int, ms: Seq<NavMove>) -> (
    int,
    int,
)
    decreases ms.len(),
{
    if ms.len() == 0 {
        (page, index)
    } else {
        let first = nav_step(pages, page, index, ms[0]);
        nav_steps(pages, first.0, first.1, ms.drop_first())
    }
}

/// One navigation move takes a valid selection to a valid selection.
pub proof fn lemma_nav_step_wf(pages: Seq<Seq<Crate>>, page: int, index: int, m: NavMove)
    requires
        nav_wf(pages, page, index),
    ensures
        nav_wf(pages, nav_step(pages, page, index, m).0, nav_step(pages, page, index, m).1),
{
}

/// Law: after any sequence of index and page moves from a valid selection,
/// the selection is still valid, and — when there are pages and no batch is
/// empty — it addresses an existing item. Navigation never strands the
/// selection out of range.
pub proof fn lemma_nav_sequence_wf(
    pages: Seq<Seq<Crate>>,
    page: int,
    index: int,
    ms: Seq<NavMove>,
)
    requires
        nav_wf(pages, page, index),
    ensures
        nav_wf(pages, nav_steps(pages, page, index, ms).0, nav_steps(pages, page, index, ms).1),
        pages.len() > 0 && no_empty_pages(pages) ==> addresses_item(
            pages,
            nav_steps(pages, page, index, ms).0,
            nav_steps(pages, page, index, ms).1,
        ),
    decreases ms.len(),
{
    if ms.len() > 0 {
        let first = nav_step(pages, page, index, ms[0]);
        lemma_nav_step_wf(pages, page, index, ms[0]);
        lemma_nav_sequence_wf(pages, first.0, first.1, ms.drop_first());
    }
}

// ---------------------------------------------------------------------------
// Navigation: retreat undoes advance
// ---------------------------------------------------------------------------

/// Law: retreating is the exact inverse of advancing — for every valid
/// selection, one advance followed by one retreat lands back on it.
pub proof fn lemma_retreat_inverts_advance(pages: Seq<Seq<Crate>>, page: int, index: int)
    requires
        nav_wf(pages, page, index),
    ensures
        retreated(pages, advanced(pages, page, index).0, advanced(pages, page, index).1) == (
            page,
            index,
        ),
{
}

// ---------------------------------------------------------------------------
// Navigation: the full wraparound cycle
// ---------------------------------------------------------------------------

/// Number of items on the pages before page `p`.
pub open spec fn prefix_len(pages: Seq<Seq<Crate>>, p: int) -> int
    decreases p,
{
    if p <= 0 {
        0
    } else {
        prefix_len(pages, p - 1) + pages[p - 1].len()
    }
}

/// Total number of items across all pages.
pub open spec fn total_len(pages: Seq<Seq<Crate>>) -> int {
    prefix_len(pages, pages.len() as int)
}

/// The selection's place in the flattened item order.
pub open spec fn ord_of(pages: Seq<Seq<Crate>>, page: int, index: int) -> int {
    prefix_len(pages, page) + index
}

/// The selection after advancing `k` times.
pub open spec fn advanced_n(pages: Seq<Seq<Crate>>, page: int, index: int, k: nat) -> (int, int)
    decreases k,
{
    if k == 0 {
        (page, index)
    } else {
        let prev = advanced_n(pages, page, index, (k - 1) as nat);
        advanced(pages, prev.0, prev.1)
    }
}

/// Page prefixes only grow.
proof fn lemma_prefix_len_mono(pages: Seq<Seq<Crate>>, a: int, b: int)
    requires
        0 <= a <= b,
    ensures
        prefix_len(pages, a) <= prefix_len(pages, b),
    decreases b - a,
{
    if a < b {
        lemma_prefix_len_mono(pages, a, b - 1);
    }
}

/// A valid selection's ordinal lies within the item count.
proof fn lemma_ord_bounds(pages: Seq<Seq<Crate>>, page: int, index: int)
    requires
        nav_wf(pages, page, index),
        no_empty_pages(pages),
        pages.len() > 0,
    ensures
        0 <= ord_of(pages, page, index) < total_len(pages),
{
    lemma_prefix_len_mono(pages, 0, page);
    assert(prefix_len(pages, page + 1) == prefix_len(pages, page) + pages[page].len());
    lemma_prefix_len_mono(pages, page + 1, pages.len() as int);
}

/// Distinct valid selections have distinct ordinals.
proof fn lemma_ord_injective(pages: Seq<Seq<Crate>>, p1: int, i1: int, p2: int, i2: int)
    requires
        nav_wf(pages, p1, i1),
        nav_wf(pages, p2, i2),
        no_empty_pages(pages),
        pages.len() > 0,
        ord_of(pages, p1, i1) == ord_of(pages, p2, i2),
    ensures
        p1 == p2 && i1 == i2,
{
    if p1 < p2 {
        assert(prefix_len(pages, p1 + 1) == prefix_len(pages, p1) + pages[p1].len());
        lemma_prefix_len_mono(pages, p1 + 1, p2);
        assert(false);
    } else if p2 < p1 {
        assert(prefix_len(pages, p2 + 1) == prefix_len(pages, p2) + pages[p2].len());
        lemma_prefix_len_mono(pages, p2 + 1, p1);
        assert(false);
    }
}

/// Advancing moves the ordinal one step forward, wrapping at the end.
proof fn lemma_advanced_ord(pages: Seq<Seq<Crate>>, page: int, index: int)
    requires
        nav_wf(pages, page, index),
        no_empty_pages(pages),
        pages.len() > 0,
    ensures
        nav_wf(pages, advanced(pages, page, index).0, advanced(pages, page, index).1),
        ord_of(pages, advanced(pages, page, index).0, advanced(pages, page, index).1) == if ord_of(
            pages,
            page,
            index,
        ) + 1 == total_len(pages) {
            0int
        } else {
            ord_of(pages, page, index) + 1
        },
{
    lemma_ord_bounds(pages, page, index);
    let len_here = pages[page].len() as int;
    if index + 1 < len_here {
        // Same page: ordinal moves within it, short of the next prefix.
        assert(prefix_len(pages, page + 1) == prefix_len(pages, page) + len_here);
        lemma_prefix_len_mono(pages, page + 1, pages.len() as int);
    } else if page + 1 < pages.len() {
        // First item of the next page: its prefix is exactly one past.
        assert(prefix_len(pages, page + 1) == prefix_len(pages, page) + len_here);
        assert(prefix_len(pages, page + 2) == prefix_len(pages, page + 1) + pages[page
            + 1].len());
        lemma_prefix_len_mono(pages, page + 2, pages.len() as int);
    } else {
        // Wrap: the old selection was the very last item.
        assert(prefix_len(pages, page + 1) == prefix_len(pages, page) + len_here);
    }
}

/// Advancing `k` times moves the ordinal `k` steps around the cycle.
proof fn lemma_advanced_n_ord(pages: Seq<Seq<Crate>>, page: int, index: int, k: nat)
    requires
        nav_wf(pages, page, index),
        no_empty_pages(pages),
        pages.len() > 0,
    ensures
        nav_wf(pages, advanced_n(pages, page, index, k).0, advanced_n(pages, page, index, k).1),
        ord_of(pages, advanced_n(pages, page, index, k).0, advanced_n(pages, page, index, k).1)
            == (ord_of(pages, page, index) + k) % total_len(pages),
    decreases k,
{
    let total = total_len(pages);
    lemma_ord_bounds(pages, page, index);
    let ord0 = ord_of(pages, page, index);
    if k == 0 {
        lemma_small_mod(ord0 as nat, total as nat);
    } else {
        lemma_advanced_n_ord(pages, page, index, (k - 1) as nat);
        let prev = advanced_n(pages, page, index, (k - 1) as nat);
        let prev_ord = ord_of(pages, prev.0, prev.1);
        lemma_ord_bounds(pages, prev.0, prev.1);
        lemma_advanced_ord(pages, prev.0, prev.1);
        let q = (ord0 + k - 1) / total;
        lemma_fundamental_div_mod(ord0 + k - 1, total);
        assert(ord0 + k - 1 == total * q + prev_ord);
        if prev_ord + 1 == total {
            assert(ord0 + k == total * (q + 1)) by {
                lemma_mul_is_distributive_add(total, q, 1);
            }
            assert((total * (q + 1)) % total == 0) by {
                lemma_mul_is_commutative(total, q + 1);
                lemma_mod_multiples_basic(q + 1, total);
            }
        } else {
            lemma_fundamental_div_mod_converse_mod(ord0 + k, total, q, prev_ord + 1);
        }
    }
}

/// Law: advancing the selection once per item walks the full cycle — after
/// exactly `total_len` advances from any valid selection, the selection is
/// back where it started. Holds whenever there are pages and no batch is
/// empty.
pub proof fn lemma_advance_full_cycle(pages: Seq<Seq<Crate>>, page: int, index: int)
    requires
        nav_wf(pages, page, index),
        no_empty_pages(pages),
        pages.len() > 0,
    ensures
        advanced_n(pages, page, index, total_len(pages) as nat) == (page, index),
{
    let total = total_len(pages);
    lemma_ord_bounds(pages, page, index);
    let ord0 = ord_of(pages, page, index);
    lemma_advanced_n_ord(pages, page, index, total as nat);
    let last = advanced_n(pages, page, index, total as nat);
    assert((ord0 + total) % total == ord0) by {
        lemma_mod_add_multiples_vanish(ord0, total);
        lemma_small_mod(ord0 as nat, total as nat);
    }
    lemma_ord_injective(pages, last.0, last.1, page, index);
}

// ---------------------------------------------------------------------------
// Re-flow is idempotent
// ---------------------------------------------------------------------------

/// Law: re-flowing to page size `n` twice is the same as doing it once, both
/// for the pages and for the clamped selection — the second pass finds the
/// items already chunked to `n` and the selection already in range.
pub proof fn lemma_re_flow_idempotent(items: Seq<Crate>, page: int, index: int, n: int)
    requires
        n >= 1,
        page >= 0,
        index >= 0,
    ensures
        chunks_of(chunks_of(items, n).flatten(), n) == chunks_of(items, n),
        reflow_selection(
            chunks_of(items, n).flatten().len() as int,
            reflow_selection(items.len() as int, page, index, n).0,
            reflow_selection(items.len() as int, page, index, n).1,
            n,
        ) == reflow_selection(items.len() as int, page, index, n),
{
    lemma_chunks_structure(items, n);
    let total = items.len() as int;
    if total > 0 {
        let slot = if page * n + index < total {
            page * n + index
        } else {
            total - 1
        };
        assert(0 <= slot) by {
            vstd::arithmetic::mul::lemma_mul_nonnegative(page, n);
        }
        lemma_fundamental_div_mod(slot, n);
        lemma_mod_bound(slot, n);
        lemma_mul_is_commutative(n, slot / n);
        assert((slot / n) * n + slot % n == slot);
    }
}

// ---------------------------------------------------------------------------
// The fetch coordinator under any interleaving
// ---------------------------------------------------------------------------

/// The coordinator's view of a results state: how many pages are fetched,
/// which page the in-flight fetch targets, and whether the query is
/// exhausted.
pub struct CoordState {
    pub pages: int,
    pub pending: Option<int>,
    pub exhausted: bool,
}

/// What one draw pass can bring: a coordinator consultation, or the
/// in-flight fetch finishing — successfully, reporting whether more pages
/// exist, or in failure.
pub enum CoordEvent {
    /// The coordinator is consulted; it may start a fetch.
    Tick,
    /// The in-flight fetch returned a batch; the flag says whether the
    /// registry reports further pages.
    CompleteOk(bool),
    /// The in-flight fetch failed.
    CompleteFail,
}

/// At most one fetch is in flight — the state cannot even express more —
/// and it targets exactly the next unfetched page of a query that is not
/// exhausted.
pub open spec fn coord_wf(s: CoordState) -> bool {
    s.pending matches Some(n) ==> n == s.pages && !s.exhausted
}

/// One coordinator step, as [`crate::search::fetch_tick`] and
/// [`crate::search::fetch_complete`] implement it: a tick starts a fetch
/// only when none is in flight and the query is not exhausted; a completion
/// folds in the batch (or, failed, only clears the in-flight marker) and is
/// discarded when nothing is in flight.
pub open spec fn coord_step(s: CoordState, e: CoordEvent, max_pages: int) -> CoordState {
    match e {
        CoordEvent::Tick => if s.pending is None && !s.exhausted {
            CoordState { pages: s.pages, pending: Some(s.pages), exhausted: s.exhausted }
        } else {
            s
        },
        CoordEvent::CompleteFail => if s.pending is Some {
            CoordState { pages: s.pages, pending: None, exhausted: s.exhausted }
        } else {
            s
        },
        CoordEvent::CompleteOk(more) => if s.pending is Some {
            CoordState {
                pages: s.pages + 1,
                pending: None,
                exhausted: !more || s.pages + 1 >= max_pages,
            }
        } else {
            s
        },
    }
}

/// The state after a whole interleaving of passes and completions.
pub open spec fn coord_steps(s: CoordState, es: Seq<CoordEvent>, max_pages: int) -> CoordState
    decreases es.len(),
{
    if es.len() == 0 {
        s
    } else {
        coord_steps(coord_step(s, es[0], max_pages), es.drop_first(), max_pages)
    }
}

/// Law: under any interleaving of draw passes and fetch completions, the
/// coordinator keeps at most one fetch in flight, always targeting the next
/// unfetched page of a query that is not exhausted; and a query once
/// exhausted fetches nothing further.
pub proof fn lemma_coordinator_invariant(s: CoordState, es: Seq<CoordEvent>, max_pages: int)
    requires
        coord_wf(s),
    ensures
        coord_wf(coord_steps(s, es, max_pages)),
        s.exhausted ==> coord_steps(s, es, max_pages) == s,
    decreases es.len(),
{
    if es.len() > 0 {
        lemma_coordinator_invariant(coord_step(s, es[0], max_pages), es.drop_first(), max_pages);
    }
}

} // verus!

