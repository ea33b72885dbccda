//! The search page: the query being typed, the paginated result set with its
//! current selection, the navigation arithmetic with wraparound, pagination
//! re-flow on resize, and the background-fetch coordinator.

use vstd::prelude::*;
use vstd::arithmetic::div_mod::{
    lemma_div_is_ordered, lemma_div_pos_is_pos, lemma_fundamental_div_mod,
    lemma_fundamental_div_mod_converse, lemma_mod_bound,
};
use vstd::arithmetic::mul::{
    lemma_mul_inequality, lemma_mul_is_commutative, lemma_mul_is_distributive_add_other_way,
    lemma_mul_is_distributive_sub_other_way, lemma_mul_nonnegative,
};
use vstd::seq_lib::lemma_flatten_concat;

use crate::app::App;
use crate::events::{InputEvent, Key};
use crate::registry::{clone_chars, Crate, SearchResponse};

verus! {

// ---------------------------------------------------------------------------
// Query state
// ---------------------------------------------------------------------------

/// The text the user is typing and the editing cursor. While `active`, input
/// events edit the text; otherwise they are navigation or action commands.
pub struct QueryState {
    pub active: bool,
    pub query: Vec<char>,
    pub cursor: usize,
}

impl QueryState {
    /// The cursor stays inside the text, one past the end at most.
    pub open spec fn wf(&self) -> bool {
        self.cursor <= self.query@.len()
    }

    /// Inserts a character at the cursor and advances the cursor past it.
    pub fn insert_char(&mut self, c: char)
        requires
            old(self).wf(),
            old(self).query@.len() < usize::MAX,
        ensures
            final(self).wf(),
            final(self).active == old(self).active,
            final(self).query@ == old(self).query@.insert(old(self).cursor as int, c),
            final(self).cursor == old(self).cursor + 1,
    {
        self.query.insert(self.cursor, c);
        self.cursor = self.cursor + 1;
    }

    /// Deletes the character left of the cursor and retreats the cursor;
    /// does nothing with the cursor at the start.
    pub fn backspace(&mut self)
        requires
            old(self).wf(),
        ensures
            final(self).wf(),
            final(self).active == old(self).active,
            old(self).cursor == 0 ==> *final(self) == *old(self),
            old(self).cursor > 0 ==> {
                &&& final(self).query@ == old(self).query@.remove(old(self).cursor - 1)
                &&& final(self).cursor == old(self).cursor - 1
            },
    {
        if self.cursor > 0 {
            self.query.remove(self.cursor - 1);
            self.cursor = self.cursor - 1;
        }
    }

    /// Deletes the character at the cursor without moving the cursor;
    /// does nothing with the cursor at the end.
    pub fn delete(&mut self)
        requires
            old(self).wf(),
        ensures
            final(self).wf(),
            final(self).active == old(self).active,
            final(self).cursor == old(self).cursor,
            old(self).cursor == old(self).query@.len() ==> *final(self) == *old(self),
            old(self).cursor < old(self).query@.len() ==> final(self).query@ == old(
                self,
            ).query@.remove(old(self).cursor as int),
    {
        if self.cursor < self.query.len() {
            self.query.remove(self.cursor);
        }
    }

    /// Moves the cursor one place left, stopping at the start.
    pub fn cursor_left(&mut self)
        requires
            old(self).wf(),
        ensures
            final(self).wf(),
            final(self).query == old(self).query,
            final(self).active == old(self).active,
            final(self).cursor == if old(self).cursor > 0 {
                old(self).cursor - 1
            } else {
                0int
            },
    {
        if self.cursor > 0 {
            self.cursor = self.cursor - 1;
        }
    }

    /// Moves the cursor one place right, stopping one past the end.
    pub fn cursor_right(&mut self)
        requires
            old(self).wf(),
        ensures
            final(self).wf(),
            final(self).query == old(self).query,
            final(self).active == old(self).active,
            final(self).cursor == if old(self).cursor < old(self).query@.len() {
                old(self).cursor + 1
            } else {
                old(self).cursor as int
            },
    {
        if self.cursor < self.query.len() {
            self.cursor = self.cursor + 1;
        }
    }
}

impl Default for QueryState {
    /// A fresh query is empty and active: the page starts in editing mode.
    fn default() -> (r: Self)
        ensures
            r.active,
            r.query@ == Seq::<char>::empty(),
            r.cursor == 0,
            r.wf(),
    {
        QueryState { active: true, query: Vec::new(), cursor: 0 }
    }
}

// ---------------------------------------------------------------------------
// Navigation arithmetic over an explicit (pages, page, index) triple
// ---------------------------------------------------------------------------

/// The pages as a sequence of item sequences.
pub open spec fn pages_view(results: Seq<Vec<Crate>>) -> Seq<Seq<Crate>> {
    results.map_values(|v: Vec<Crate>| v@)
}

/// The greatest index a selection on this page may take; 0 on an empty page,
/// where the selection is merely a placeholder.
pub open spec fn last_valid_index(pg: Seq<Crate>) -> int {
    if pg.len() == 0 {
        0
    } else {
        pg.len() - 1
    }
}

/// Keeps an in-range index, and pulls one past the end back to the last
/// valid place on the page.
pub open spec fn clamp_index(pg: Seq<Crate>, index: int) -> int {
    if index < pg.len() {
        index
    } else {
        last_valid_index(pg)
    }
}

/// A valid selection: with no pages both coordinates are 0; otherwise the
/// page exists and the index points at one of its items (or is the
/// placeholder 0 on an empty page).
pub open spec fn nav_wf(pages: Seq<Seq<Crate>>, page: int, index: int) -> bool {
    if pages.len() == 0 {
        page == 0 && index == 0
    } else {
        &&& 0 <= page < pages.len()
        &&& 0 <= index
        &&& if pages[page].len() == 0 {
            index == 0
        } else {
            index < pages[page].len()
        }
    }
}

/// Selection after moving to the next item: one further on the same page,
/// else the first item of the next page, else wrapping to the very first
/// item. With no pages the selection stays put.
pub open spec fn advanced(pages: Seq<Seq<Crate>>, page: int, index: int) -> (int, int) {
    if pages.len() == 0 {
        (page, index)
    } else if index + 1 < pages[page].len() {
        (page, index + 1)
    } else if page + 1 < pages.len() {
        (page + 1, 0)
    } else {
        (0, 0)
    }
}

/// Selection after moving to the previous item: one back on the same page,
/// else the last item of the previous page, else wrapping to the last item
/// of the last page. With no pages the selection stays put.
pub open spec fn retreated(pages: Seq<Seq<Crate>>, page: int, index: int) -> (int, int) {
    if pages.len() == 0 {
        (page, index)
    } else if index > 0 {
        (page, index - 1)
    } else if page > 0 {
        (page - 1, last_valid_index(pages[page - 1]))
    } else {
        (pages.len() - 1, last_valid_index(pages[pages.len() - 1]))
    }
}

/// Selection after moving to the next page, wrapping to the first; the index
/// is kept and clamped to the landing page's item count.
pub open spec fn page_advanced(pages: Seq<Seq<Crate>>, page: int, index: int) -> (int, int) {
    if pages.len() == 0 {
        (page, index)
    } else if page + 1 < pages.len() {
        (page + 1, clamp_index(pages[page + 1], index))
    } else {
        (0, clamp_index(pages[0], index))
    }
}

/// Selection after moving to the previous page, wrapping to the last; the
/// index is kept and clamped to the landing page's item count.
pub open spec fn page_retreated(pages: Seq<Seq<Crate>>, page: int, index: int) -> (int, int) {
    if pages.len() == 0 {
        (page, index)
    } else if page > 0 {
        (page - 1, clamp_index(pages[page - 1], index))
    } else {
        (pages.len() - 1, clamp_index(pages[pages.len() - 1], index))
    }
}

// ---------------------------------------------------------------------------
// Results state
// ---------------------------------------------------------------------------

/// The paginated result set of one committed query, with the current
/// selection and the background-fetch bookkeeping.
pub struct ResultsState {
    /// The text the results belong to, frozen when the search was committed.
    pub query: Vec<char>,
    /// Fetched batches in fetch order; page 0 was fetched first.
    pub results: Vec<Vec<Crate>>,
    /// Currently viewed page.
    pub page: usize,
    /// Selected item on that page.
    pub index: usize,
    /// True once no further batches will be fetched for this query.
    pub loaded_all: bool,
    /// The page number the one in-flight fetch targets, if any; always the
    /// next unfetched page.
    pub pending_fetch: Option<usize>,
}

impl ResultsState {
    pub open spec fn pages(&self) -> Seq<Seq<Crate>> {
        pages_view(self.results@)
    }

    /// The selection is valid, and an in-flight fetch, if any, targets
    /// exactly the next unfetched page of a query that is not exhausted.
    pub open spec fn wf(&self) -> bool {
        &&& nav_wf(self.pages(), self.page as int, self.index as int)
        &&& self.pending_fetch matches Some(n) ==> n == self.results@.len() && !self.loaded_all
    }

    /// A fresh, empty result set for a just-committed query: no pages, no
    /// in-flight fetch, nothing exhausted.
    pub fn new(query: Vec<char>) -> (r: Self)
        ensures
            r.wf(),
            r.query == query,
            r.results@ == Seq::<Vec<Crate>>::empty(),
            r.page == 0,
            r.index == 0,
            !r.loaded_all,
            r.pending_fetch is None,
    {
        ResultsState {
            query,
            results: Vec::new(),
            page: 0,
            index: 0,
            loaded_all: false,
            pending_fetch: None,
        }
    }
}

/// True when everything of a results state but the selection is unchanged.
pub open spec fn nav_fields_unchanged(s0: ResultsState, s1: ResultsState) -> bool {
    &&& s1.results == s0.results
    &&& s1.query == s0.query
    &&& s1.loaded_all == s0.loaded_all
    &&& s1.pending_fetch == s0.pending_fetch
}

// ---------------------------------------------------------------------------
// Re-flow: flatten the fetched items and re-chunk them to a new page size
// ---------------------------------------------------------------------------

/// All fetched items in order, pages flattened away.
pub open spec fn flat_items(results: Seq<Vec<Crate>>) -> Seq<Crate> {
    pages_view(results).flatten()
}

/// The items grouped into pages of `n`, the last page holding the remainder.
pub open spec fn chunks_of(items: Seq<Crate>, n: int) -> Seq<Seq<Crate>>
    recommends
        n >= 1,
    decreases items.len(),
{
    if n < 1 || items.len() == 0 {
        Seq::empty()
    } else if items.len() <= n {
        seq![items]
    } else {
        seq![items.take(n)] + chunks_of(items.skip(n), n)
    }
}

/// Where chunk `p` of a sequence of `len` items ends when chunks hold `n`.
pub open spec fn chunk_end(len: int, p: int, n: int) -> int {
    if p * n + n <= len {
        p * n + n
    } else {
        len
    }
}

/// The shape of [`chunks_of`]: it loses no item, makes `ceil(len / n)`
/// pages, and page `p` is exactly the items from `p * n` on.
pub proof fn lemma_chunks_structure(items: Seq<Crate>, n: int)
    requires
        n >= 1,
    ensures
        chunks_of(items, n).flatten() == items,
        items.len() == 0 ==> chunks_of(items, n).len() == 0,
        items.len() > 0 ==> chunks_of(items, n).len() == (items.len() - 1) / n + 1,
        forall|p: int|
            0 <= p < chunks_of(items, n).len() ==> #[trigger] chunks_of(items, n)[p]
                == items.subrange(p * n, chunk_end(items.len() as int, p, n)),
    decreases items.len(),
{
    let cs = chunks_of(items, n);
    let len = items.len() as int;
    if items.len() == 0 {
        assert(cs.flatten() =~= items);
    } else if items.len() <= n {
        cs.lemma_flatten_one_element();
        assert(cs.flatten() == items);
        assert((len - 1) / n == 0) by {
            lemma_div_pos_is_pos(len - 1, n);
            lemma_div_is_ordered(len - 1, n - 1, n);
            assert((n - 1) / n == 0) by {
                lemma_fundamental_div_mod_converse(n - 1, n, 0, n - 1);
            }
        }
        assert forall|p: int| 0 <= p < cs.len() implies #[trigger] cs[p] == items.subrange(
            p * n,
            chunk_end(len, p, n),
        ) by {
            assert(p == 0);
            assert(0 * n == 0) by {
                lemma_mul_is_commutative(0, n);
            }
            assert(chunk_end(len, 0, n) == len);
            assert(items.subrange(0, len) =~= items);
        }
    } else {
        let rest = items.skip(n);
        lemma_chunks_structure(rest, n);
        let head = seq![items.take(n)];
        assert(cs == head + chunks_of(rest, n));
        lemma_flatten_concat(head, chunks_of(rest, n));
        head.lemma_flatten_one_element();
        assert(items.take(n) + rest =~= items);
        assert(cs.flatten() == items);
        // Page count: peeling one full page off shifts the quotient by one.
        let m = len - n;
        assert(rest.len() == m);
        let q = (m - 1) / n;
        let r = (m - 1) % n;
        lemma_fundamental_div_mod(m - 1, n);
        lemma_mod_bound(m - 1, n);
        assert((q + 1) * n == q * n + n) by {
            lemma_mul_is_distributive_add_other_way(n, q, 1);
        }
        assert(n * q == q * n) by {
            lemma_mul_is_commutative(n, q);
        }
        assert(len - 1 == (q + 1) * n + r);
        lemma_fundamental_div_mod_converse(len - 1, n, q + 1, r);
        assert(cs.len() == (len - 1) / n + 1);
        // Page contents.
        assert forall|p: int| 0 <= p < cs.len() implies #[trigger] cs[p] == items.subrange(
            p * n,
            chunk_end(len, p, n),
        ) by {
            if p == 0 {
                assert(0 * n == 0) by {
                    lemma_mul_is_commutative(0, n);
                }
                assert(chunk_end(len, 0, n) == n);
                assert(cs[0] == items.take(n));
                assert(items.take(n) =~= items.subrange(0, n));
            } else {
                assert(cs[p] == chunks_of(rest, n)[p - 1]);
                assert((p - 1) * n == p * n - n) by {
                    lemma_mul_is_distributive_sub_other_way(n, p, 1);
                }
                assert(0 <= (p - 1) * n) by {
                    lemma_mul_nonnegative(p - 1, n);
                }
                assert((p - 1) * n <= m - 1) by {
                    lemma_mul_inequality(p - 1, q, n);
                }
                assert(chunks_of(rest, n)[p - 1] == rest.subrange(
                    (p - 1) * n,
                    chunk_end(m, p - 1, n),
                ));
                assert(chunk_end(m, p - 1, n) + n == chunk_end(len, p, n));
                assert(rest.subrange((p - 1) * n, chunk_end(m, p - 1, n)) =~= items.subrange(
                    p * n,
                    chunk_end(len, p, n),
                ));
            }
        }
    }
}

/// Chunking in the other direction: flat position `slot` lands on page
/// `slot / n` at index `slot % n`, and that slot holds exactly item `slot`.
pub proof fn lemma_chunks_slot(items: Seq<Crate>, n: int, slot: int)
    requires
        n >= 1,
        0 <= slot < items.len(),
    ensures
        0 <= slot / n < chunks_of(items, n).len(),
        0 <= slot % n < chunks_of(items, n)[slot / n].len(),
        chunks_of(items, n)[slot / n][slot % n] == items[slot],
{
    lemma_chunks_structure(items, n);
    let len = items.len() as int;
    let q = slot / n;
    let r = slot % n;
    lemma_fundamental_div_mod(slot, n);
    lemma_mod_bound(slot, n);
    lemma_div_pos_is_pos(slot, n);
    lemma_div_is_ordered(slot, len - 1, n);
    assert(n * q == q * n) by {
        lemma_mul_is_commutative(n, q);
    }
    assert(q * n <= slot < q * n + n);
    assert(0 <= q < chunks_of(items, n).len());
    assert(chunks_of(items, n)[q] == items.subrange(q * n, chunk_end(len, q, n)));
    assert(chunks_of(items, n)[q][r] == items[slot]);
}

/// Where the selection lands after a re-flow to page size `n`: the slot
/// `page * n + index`, pulled back to the last item when it fell off the
/// end, read as a (page, index) pair of the new layout.
pub open spec fn reflow_selection(total: int, page: int, index: int, n: int) -> (int, int)
    recommends
        n >= 1,
        page >= 0,
        index >= 0,
{
    if total == 0 {
        (0, 0)
    } else {
        let slot = if page * n + index < total {
            page * n + index
        } else {
            total - 1
        };
        (slot / n, slot % n)
    }
}

impl ResultsState {
    /// Re-flows the pages to a new per-page capacity: all fetched items are
    /// flattened in order and re-chunked into groups of `per_page`. The
    /// selection is clamped by position, not by item identity: an address
    /// that fell outside the new layout is pulled back to the last item.
    /// The query, the exhausted flag and an in-flight fetch survive; a
    /// pending fetch is re-labelled to target the new next page, where its
    /// batch will be folded in.
    pub fn re_flow(&mut self, per_page: usize)
        requires
            per_page >= 1,
            old(self).pending_fetch is Some ==> !old(self).loaded_all,
        ensures
            final(self).wf(),
            final(self).query == old(self).query,
            final(self).loaded_all == old(self).loaded_all,
            (final(self).pending_fetch is Some) == (old(self).pending_fetch is Some),
            final(self).pending_fetch matches Some(n) ==> n == final(self).results@.len(),
            final(self).pages() == chunks_of(flat_items(old(self).results@), per_page as int),
            (final(self).page as int, final(self).index as int) == reflow_selection(
                flat_items(old(self).results@).len() as int,
                old(self).page as int,
                old(self).index as int,
                per_page as int,
            ),
    {
        let n = per_page;
        let ghost gn = n as int;
        // Flatten all pages into one ordered sequence.
        let mut flat: Vec<Crate> = Vec::new();
        let mut p: usize = 0;
        proof {
            assert(pages_view(self.results@.take(0)).flatten() =~= flat@);
        }
        while p < self.results.len()
            invariant
                p <= self.results@.len(),
                flat@ == pages_view(self.results@.take(p as int)).flatten(),
            decreases self.results@.len() - p,
        {
            let pg = &self.results[p];
            let mut j: usize = 0;
            proof {
                assert(flat@ + pg@.take(0) =~= flat@);
            }
            let ghost flat0 = flat@;
            while j < pg.len()
                invariant
                    j <= pg@.len(),
                    flat@ == flat0 + pg@.take(j as int),
                decreases pg@.len() - j,
            {
                flat.push(pg[j].clone());
                j = j + 1;
                proof {
                    assert(flat0 + pg@.take(j as int) =~= (flat0 + pg@.take(j - 1)).push(
                        pg@[j - 1],
                    ));
                }
            }
            proof {
                assert(pg@.take(pg@.len() as int) =~= pg@);
                pages_view(self.results@.take(p as int)).lemma_flatten_push(pg@);
                assert(pages_view(self.results@.take(p + 1)) =~= pages_view(
                    self.results@.take(p as int),
                ).push(pg@));
            }
            p = p + 1;
        }
        proof {
            assert(self.results@.take(self.results@.len() as int) =~= self.results@);
            assert(flat@ == flat_items(self.results@));
        }
        let ghost items = flat@;
        // Re-chunk into pages of `n` items.
        let total = flat.len();
        let mut pages: Vec<Vec<Crate>> = Vec::new();
        let mut i: usize = 0;
        proof {
            assert(items.skip(0) =~= items);
            assert(pages_view(pages@) + chunks_of(items, gn) =~= chunks_of(items, gn));
        }
        while i < total
            invariant
                n == per_page && per_page >= 1,
                gn == n as int,
                i <= total,
                total == items.len(),
                items == flat@,
                chunks_of(items, gn) == pages_view(pages@) + chunks_of(
                    items.skip(i as int),
                    gn,
                ),
            decreases total - i,
        {
            let end = if n < total - i {
                i + n
            } else {
                total
            };
            let mut pg: Vec<Crate> = Vec::new();
            let mut j = i;
            while j < end
                invariant
                    i <= j <= end <= total,
                    total == flat@.len(),
                    pg@ == flat@.subrange(i as int, j as int),
                decreases end - j,
            {
                pg.push(flat[j].clone());
                j = j + 1;
                proof {
                    assert(flat@.subrange(i as int, j as int) =~= flat@.subrange(
                        i as int,
                        j - 1,
                    ).push(flat@[j - 1]));
                }
            }
            proof {
                let rem = items.skip(i as int);
                assert(rem.len() == total - i);
                if total - i <= gn {
                    assert(chunks_of(rem, gn) == seq![rem]);
                    assert(pg@ =~= rem);
                    assert(items.skip(end as int) =~= Seq::<Crate>::empty());
                    assert(chunks_of(items.skip(end as int), gn) =~= Seq::<Seq<Crate>>::empty());
                } else {
                    assert(chunks_of(rem, gn) == seq![rem.take(gn)] + chunks_of(
                        rem.skip(gn),
                        gn,
                    ));
                    assert(pg@ =~= rem.take(gn));
                    assert(rem.skip(gn) =~= items.skip(end as int));
                }
                assert(pages_view(pages@.push(pg)) =~= pages_view(pages@).push(pg@));
                assert(pages_view(pages@).push(pg@) + chunks_of(items.skip(end as int), gn)
                    =~= pages_view(pages@) + (seq![pg@] + chunks_of(items.skip(end as int), gn)));
                assert(chunks_of(items, gn) == pages_view(pages@.push(pg)) + chunks_of(
                    items.skip(end as int),
                    gn,
                ));
            }
            pages.push(pg);
            i = end;
        }
        proof {
            assert(items.skip(total as int) =~= Seq::<Crate>::empty());
            assert(chunks_of(items.skip(total as int), gn) =~= Seq::<Seq<Crate>>::empty());
            assert(pages_view(pages@) + chunks_of(items.skip(total as int), gn) =~= pages_view(
                pages@,
            ));
            assert(pages_view(pages@) == chunks_of(items, gn));
        }
        self.results = pages;
        // Clamp the selection by position.
        if total == 0 {
            self.page = 0;
            self.index = 0;
        } else {
            let maxs = total - 1;
            let cap = maxs / n;
            let slot: usize;
            if self.page > cap {
                // The old page alone already addresses past the end.
                proof {
                    lemma_fundamental_div_mod(maxs as int, gn);
                    lemma_mod_bound(maxs as int, gn);
                    lemma_mul_is_commutative(gn, cap as int);
                    lemma_mul_is_distributive_add_other_way(gn, cap as int, 1);
                    lemma_mul_inequality(cap as int + 1, self.page as int, gn);
                }
                slot = maxs;
            } else {
                proof {
                    lemma_fundamental_div_mod(maxs as int, gn);
                    lemma_mod_bound(maxs as int, gn);
                    lemma_mul_is_commutative(gn, cap as int);
                    lemma_mul_inequality(self.page as int, cap as int, gn);
                }
                let base = self.page * n;
                slot = if self.index > maxs - base {
                    maxs
                } else {
                    base + self.index
                };
            }
            proof {
                lemma_chunks_slot(items, gn, slot as int);
            }
            self.page = slot / n;
            self.index = slot % n;
        }
        if self.pending_fetch.is_some() {
            self.pending_fetch = Some(self.results.len());
        }
    }
}

// ---------------------------------------------------------------------------
// The search page
// ---------------------------------------------------------------------------

/// The page controller's state: query, results, the per-page item capacity
/// derived from the terminal height, and the help-display flag.
pub struct SearchPage {
    pub query_state: QueryState,
    pub results_state: Option<ResultsState>,
    pub per_page: usize,
    pub expanded_help_message: bool,
}

impl SearchPage {
    pub open spec fn wf(&self) -> bool {
        &&& self.query_state.wf()
        &&& self.per_page >= 1
        &&& self.results_state matches Some(s) ==> s.wf()
    }

    /// The page's fields other than the results' selection are unchanged.
    pub open spec fn only_selection_changed(self, p0: SearchPage) -> bool {
        &&& self.query_state == p0.query_state
        &&& self.per_page == p0.per_page
        &&& self.expanded_help_message == p0.expanded_help_message
        &&& p0.results_state is None ==> self.results_state == p0.results_state
        &&& p0.results_state matches Some(s0) ==> self.results_state matches Some(s1)
            && nav_fields_unchanged(s0, s1)
    }

    /// The selection as a pair, for relating it to the navigation arithmetic.
    pub open spec fn selection(&self) -> (int, int)
        recommends
            self.results_state is Some,
    {
        (self.results_state.unwrap().page as int, self.results_state.unwrap().index as int)
    }

    /// Moves the selection to the next item, crossing to the next page and
    /// wrapping to the start as needed; does nothing without results.
    pub fn next_index(&mut self)
        requires
            old(self).wf(),
        ensures
            final(self).wf(),
            final(self).only_selection_changed(*old(self)),
            old(self).results_state matches Some(s0) ==> final(self).selection() == advanced(
                s0.pages(),
                s0.page as int,
                s0.index as int,
            ),
    {
        if let Some(state) = &mut self.results_state {
            let npages = state.results.len();
            if npages > 0 {
                let plen = state.results[state.page].len();
                if state.index + 1 < plen {
                    state.index = state.index + 1;
                } else if state.page + 1 < npages {
                    state.page = state.page + 1;
                    state.index = 0;
                } else {
                    state.page = 0;
                    state.index = 0;
                }
            }
        }
    }

    /// Moves the selection to the previous item, crossing to the last item
    /// of the previous page and wrapping to the end as needed; does nothing
    /// without results.
    pub fn previous_index(&mut self)
        requires
            old(self).wf(),
        ensures
            final(self).wf(),
            final(self).only_selection_changed(*old(self)),
            old(self).results_state matches Some(s0) ==> final(self).selection() == retreated(
                s0.pages(),
                s0.page as int,
                s0.index as int,
            ),
    {
        if let Some(state) = &mut self.results_state {
            let npages = state.results.len();
            if npages > 0 {
                if state.index > 0 {
                    state.index = state.index - 1;
                } else if state.page > 0 {
                    state.page = state.page - 1;
                    let plen = state.results[state.page].len();
                    state.index = if plen == 0 {
                        0
                    } else {
                        plen - 1
                    };
                } else {
                    state.page = npages - 1;
                    let plen = state.results[state.page].len();
                    state.index = if plen == 0 {
                        0
                    } else {
                        plen - 1
                    };
                }
            }
        }
    }

    /// Moves to the next page, wrapping to the first, clamping the index to
    /// the landing page's item count; does nothing without results.
    pub fn next_page(&mut self)
        requires
            old(self).wf(),
        ensures
            final(self).wf(),
            final(self).only_selection_changed(*old(self)),
            old(self).results_state matches Some(s0) ==> final(self).selection() == page_advanced(
                s0.pages(),
                s0.page as int,
                s0.index as int,
            ),
    {
        if let Some(state) = &mut self.results_state {
            let npages = state.results.len();
            if npages > 0 {
                if state.page + 1 < npages {
                    state.page = state.page + 1;
                } else {
                    state.page = 0;
                }
                let plen = state.results[state.page].len();
                if state.index >= plen {
                    state.index = if plen == 0 {
                        0
                    } else {
                        plen - 1
                    };
                }
            }
        }
    }

    /// Moves to the previous page, wrapping to the last, clamping the index
    /// to the landing page's item count; does nothing without results.
    pub fn previous_page(&mut self)
        requires
            old(self).wf(),
        ensures
            final(self).wf(),
            final(self).only_selection_changed(*old(self)),
            old(self).results_state matches Some(s0) ==> final(self).selection() == page_retreated(
                s0.pages(),
                s0.page as int,
                s0.index as int,
            ),
    {
        if let Some(state) = &mut self.results_state {
            let npages = state.results.len();
            if npages > 0 {
                if state.page > 0 {
                    state.page = state.page - 1;
                } else {
                    state.page = npages - 1;
                }
                let plen = state.results[state.page].len();
                if state.index >= plen {
                    state.index = if plen == 0 {
                        0
                    } else {
                        plen - 1
                    };
                }
            }
        }
    }

    /// The item the selection addresses, or nothing when there are no
    /// results, no pages yet, or the current page is an empty batch.
    pub fn selected_crate(&self) -> (r: Option<Crate>)
        requires
            self.wf(),
        ensures
            r == self.spec_selected_crate(),
    {
        match &self.results_state {
            None => None,
            Some(state) => {
                if state.results.len() > 0 {
                    let pg = &state.results[state.page];
                    if pg.len() > 0 {
                        Some(pg[state.index].clone())
                    } else {
                        None
                    }
                } else {
                    None
                }
            },
        }
    }

    /// What [`Self::selected_crate`] returns: the item at (page, index)
    /// when one is there.
    pub open spec fn spec_selected_crate(&self) -> Option<Crate> {
        match self.results_state {
            None => None,
            Some(s) => if s.pages().len() > 0 && s.pages()[s.page as int].len() > 0 {
                Some(s.pages()[s.page as int][s.index as int])
            } else {
                None
            },
        }
    }
}

impl Default for SearchPage {
    /// A fresh page: empty active query, no results, a single-item page
    /// capacity until the first resize reports the real terminal height.
    fn default() -> (r: Self)
        ensures
            r.wf(),
            r.query_state.active,
            r.query_state.query@ == Seq::<char>::empty(),
            r.query_state.cursor == 0,
            r.results_state is None,
            r.per_page == 1,
            !r.expanded_help_message,
    {
        SearchPage {
            query_state: QueryState::default(),
            results_state: None,
            per_page: 1,
            expanded_help_message: false,
        }
    }
}

// ---------------------------------------------------------------------------
// Fetch coordination
// ---------------------------------------------------------------------------

/// The plain values of one background fetch the host is asked to start.
pub struct FetchRequest {
    /// The frozen query text.
    pub query: Vec<char>,
    /// The 0-based page the fetch targets: the number of pages fetched so far.
    pub page: usize,
    /// Number of items to request: the current per-page capacity.
    pub limit: usize,
}

/// Consulted once per draw pass: decides whether a new background fetch
/// should start. One starts exactly when results exist for a committed
/// query, no fetch is in flight, and the query is not exhausted; it targets
/// the next unfetched page and is recorded as the pending fetch, so a second
/// pass cannot start another.
pub fn fetch_tick(app: &mut App) -> (r: Option<FetchRequest>)
    requires
        old(app).wf(),
    ensures
        final(app).wf(),
        final(app).config == old(app).config,
        final(app).tab == old(app).tab,
        final(app).warning_timer == old(app).warning_timer,
        final(app).error_timer == old(app).error_timer,
        final(app).search_page.query_state == old(app).search_page.query_state,
        final(app).search_page.per_page == old(app).search_page.per_page,
        final(app).search_page.expanded_help_message == old(
            app,
        ).search_page.expanded_help_message,
        match old(app).search_page.results_state {
            None => r is None && final(app).search_page.results_state is None,
            Some(s0) => if s0.pending_fetch is None && !s0.loaded_all {
                &&& r matches Some(req)
                &&& req.query@ == s0.query@
                &&& req.page == s0.results@.len()
                &&& req.limit == old(app).search_page.per_page
                &&& final(app).search_page.results_state matches Some(s1)
                &&& s1.query == s0.query && s1.results == s0.results && s1.page == s0.page
                    && s1.index == s0.index && s1.loaded_all == s0.loaded_all
                &&& s1.pending_fetch matches Some(n)
                &&& n == s0.results@.len()
            } else {
                r is None && final(app).search_page.results_state == Some(s0)
            },
        },
{
    match &mut app.search_page.results_state {
        None => None,
        Some(state) => {
            if state.pending_fetch.is_none() && !state.loaded_all {
                let page_no = state.results.len();
                state.pending_fetch = Some(page_no);
                Some(
                    FetchRequest {
                        query: clone_chars(&state.query),
                        page: page_no,
                        limit: app.search_page.per_page,
                    },
                )
            } else {
                None
            }
        },
    }
}

/// Folds a finished background fetch into the results. A successful batch is
/// appended (an empty batch too: it is distinct from "no more pages"), and
/// the query becomes exhausted exactly when the registry reports no further
/// pages or the configured page cap is reached. A failed fetch only clears
/// the pending marker and raises the error signal, so the next draw pass
/// retries the same page. A completion that arrives when nothing is pending
/// (its results state was replaced by a new search) is discarded.
pub fn fetch_complete(app: &mut App, response: Option<SearchResponse>, now_ms: u64)
    requires
        old(app).wf(),
    ensures
        final(app).wf(),
        final(app).config == old(app).config,
        final(app).tab == old(app).tab,
        final(app).warning_timer == old(app).warning_timer,
        final(app).search_page.query_state == old(app).search_page.query_state,
        final(app).search_page.per_page == old(app).search_page.per_page,
        final(app).search_page.expanded_help_message == old(
            app,
        ).search_page.expanded_help_message,
        match old(app).search_page.results_state {
            None => final(app).search_page.results_state is None && final(app).error_timer == old(
                app,
            ).error_timer,
            Some(s0) => if s0.pending_fetch is None {
                final(app).search_page.results_state == Some(s0) && final(app).error_timer == old(
                    app,
                ).error_timer
            } else {
                match response {
                    None => {
                        &&& final(app).error_timer == Some(now_ms)
                        &&& final(app).search_page.results_state matches Some(s1)
                        &&& s1.query == s0.query && s1.results == s0.results && s1.page == s0.page
                            && s1.index == s0.index && s1.loaded_all == s0.loaded_all
                            && s1.pending_fetch is None
                    },
                    Some(resp) => {
                        &&& final(app).error_timer == old(app).error_timer
                        &&& final(app).search_page.results_state matches Some(s1)
                        &&& s1.query == s0.query && s1.page == s0.page && s1.index == s0.index
                            && s1.pending_fetch is None
                        &&& s1.results@ == s0.results@.push(resp.crates)
                        &&& s1.loaded_all == (resp.meta.next_page is None || s0.results@.len() + 1
                            >= old(app).config.search.max_pages as int)
                    },
                }
            },
        },
{
    let mut failed = false;
    match &mut app.search_page.results_state {
        None => {},
        Some(state) => {
            if state.pending_fetch.is_some() {
                match response {
                    None => {
                        state.pending_fetch = None;
                        failed = true;
                    },
                    Some(resp) => {
                        state.pending_fetch = None;
                        state.results.push(resp.crates);
                        let max = app.config.search.max_pages as usize;
                        state.loaded_all = resp.meta.next_page.is_none() || state.results.len()
                            >= max;
                    },
                }
            }
        },
    }
    if failed {
        app.error(now_ms);
    }
}

// ---------------------------------------------------------------------------
// Event dispatch
// ---------------------------------------------------------------------------

/// A side effect the host performs on the library's behalf after dispatch:
/// opening a link or mutating the package manifest. The library only
/// decides; it never performs these itself.
#[derive(PartialEq, Eq, Debug)]
pub enum SideAction {
    /// No outside work to do.
    Nothing,
    /// Open the registry page of the package with this identifier.
    OpenCratesPage(String),
    /// Open the documentation page of the package with this identifier.
    OpenDocsPage(String),
    /// Open this repository link.
    OpenRepository(String),
    /// Add the package (identifier, version) to the local manifest.
    AddDependency(String, String),
    /// Remove the package with this identifier from the local manifest.
    RemoveDependency(String),
    /// Install the package with this identifier.
    Install(String),
}

/// What one dispatched event came to: whether the page had no use for the
/// key (so the host's global bindings may still act on it), and the side
/// effect the host is asked to perform.
pub struct Outcome {
    pub unhandled: bool,
    pub action: SideAction,
}

/// Nothing of the application outside the search page changed.
pub open spec fn same_outside_search_page(a1: App, a0: App) -> bool {
    &&& a1.config == a0.config
    &&& a1.tab == a0.tab
    &&& a1.warning_timer == a0.warning_timer
    &&& a1.error_timer == a0.error_timer
}

/// Nothing changed but the query state.
pub open spec fn same_but_query_state(a1: App, a0: App) -> bool {
    &&& same_outside_search_page(a1, a0)
    &&& a1.search_page.results_state == a0.search_page.results_state
    &&& a1.search_page.per_page == a0.search_page.per_page
    &&& a1.search_page.expanded_help_message == a0.search_page.expanded_help_message
}

/// The warning signal was raised at `now` and nothing else changed.
pub open spec fn warned(a1: App, a0: App, now: u64) -> bool {
    &&& a1.warning_timer == Some(now)
    &&& a1.config == a0.config
    &&& a1.tab == a0.tab
    &&& a1.error_timer == a0.error_timer
    &&& a1.search_page == a0.search_page
}

/// The key was spent moving the selection to `target`, nothing else changed.
pub open spec fn nav_outcome(a1: App, a0: App, r: Outcome, target: (int, int)) -> bool {
    &&& same_outside_search_page(a1, a0)
    &&& a1.search_page.only_selection_changed(a0.search_page)
    &&& a0.search_page.results_state is Some ==> a1.search_page.selection() == target
    &&& !r.unhandled
    &&& r.action is Nothing
}

/// The transition of one key in editing mode: characters edit the query,
/// Enter commits it into a brand-new results state and leaves editing mode,
/// Escape only leaves editing mode, and any other key is reported unused.
pub open spec fn edit_mode_transition(a0: App, a1: App, k: Key, r: Outcome) -> bool {
    let q0 = a0.search_page.query_state;
    let q1 = a1.search_page.query_state;
    match k {
        Key::Char(c) => {
            &&& same_but_query_state(a1, a0)
            &&& q1.active
            &&& q1.query@ == q0.query@.insert(q0.cursor as int, c)
            &&& q1.cursor == q0.cursor + 1
            &&& !r.unhandled && r.action is Nothing
        },
        Key::Backspace => {
            &&& same_but_query_state(a1, a0)
            &&& q1.active
            &&& q0.cursor == 0 ==> q1 == q0
            &&& q0.cursor > 0 ==> q1.query@ == q0.query@.remove(q0.cursor - 1) && q1.cursor
                == q0.cursor - 1
            &&& !r.unhandled && r.action is Nothing
        },
        Key::Delete => {
            &&& same_but_query_state(a1, a0)
            &&& q1.active
            &&& q1.cursor == q0.cursor
            &&& q0.cursor == q0.query@.len() ==> q1 == q0
            &&& q0.cursor < q0.query@.len() ==> q1.query@ == q0.query@.remove(q0.cursor as int)
            &&& !r.unhandled && r.action is Nothing
        },
        Key::Left => {
            &&& same_but_query_state(a1, a0)
            &&& q1.active && q1.query == q0.query
            &&& q1.cursor == if q0.cursor > 0 {
                q0.cursor - 1
            } else {
                0int
            }
            &&& !r.unhandled && r.action is Nothing
        },
        Key::Right => {
            &&& same_but_query_state(a1, a0)
            &&& q1.active && q1.query == q0.query
            &&& q1.cursor == if q0.cursor < q0.query@.len() {
                q0.cursor + 1
            } else {
                q0.cursor as int
            }
            &&& !r.unhandled && r.action is Nothing
        },
        Key::Enter => {
            &&& same_outside_search_page(a1, a0)
            &&& !q1.active && q1.query == q0.query && q1.cursor == q0.cursor
            &&& a1.search_page.per_page == a0.search_page.per_page
            &&& a1.search_page.expanded_help_message == a0.search_page.expanded_help_message
            &&& a1.search_page.results_state matches Some(s1)
            &&& s1.query@ == q0.query@ && s1.results@.len() == 0 && s1.page == 0 && s1.index == 0
                && !s1.loaded_all && s1.pending_fetch is None
            &&& !r.unhandled && r.action is Nothing
        },
        Key::Esc => {
            &&& same_outside_search_page(a1, a0)
            &&& !q1.active && q1.query == q0.query && q1.cursor == q0.cursor
            &&& a1.search_page.results_state == a0.search_page.results_state
            &&& a1.search_page.per_page == a0.search_page.per_page
            &&& a1.search_page.expanded_help_message == a0.search_page.expanded_help_message
            &&& !r.unhandled && r.action is Nothing
        },
        _ => a1 == a0 && r.unhandled && r.action is Nothing,
    }
}

/// The transition of one key in navigation mode: the fixed key table of the
/// search page. Every action that needs a selected item raises the warning
/// signal instead when none is selected.
pub open spec fn nav_mode_transition(a0: App, a1: App, k: Key, now: u64, r: Outcome) -> bool {
    let sp0 = a0.search_page;
    let sel = sp0.spec_selected_crate();
    let nav_args = sp0.results_state.unwrap();
    match k {
        Key::Up => nav_outcome(
            a1,
            a0,
            r,
            retreated(nav_args.pages(), nav_args.page as int, nav_args.index as int),
        ),
        Key::Down => nav_outcome(
            a1,
            a0,
            r,
            advanced(nav_args.pages(), nav_args.page as int, nav_args.index as int),
        ),
        Key::Left => nav_outcome(
            a1,
            a0,
            r,
            page_retreated(nav_args.pages(), nav_args.page as int, nav_args.index as int),
        ),
        Key::Right => nav_outcome(
            a1,
            a0,
            r,
            page_advanced(nav_args.pages(), nav_args.page as int, nav_args.index as int),
        ),
        Key::Char(c) => if c == 's' {
            &&& same_outside_search_page(a1, a0)
            &&& a1.search_page.query_state.active
            &&& a1.search_page.query_state.query == sp0.query_state.query
            &&& a1.search_page.query_state.cursor == sp0.query_state.cursor
            &&& a1.search_page.results_state == sp0.results_state
            &&& a1.search_page.per_page == sp0.per_page
            &&& a1.search_page.expanded_help_message == sp0.expanded_help_message
            &&& !r.unhandled && r.action is Nothing
        } else if c == '?' {
            &&& same_outside_search_page(a1, a0)
            &&& a1.search_page.query_state == sp0.query_state
            &&& a1.search_page.results_state == sp0.results_state
            &&& a1.search_page.per_page == sp0.per_page
            &&& a1.search_page.expanded_help_message == !sp0.expanded_help_message
            &&& !r.unhandled && r.action is Nothing
        } else if c == 'j' {
            nav_outcome(
                a1,
                a0,
                r,
                retreated(nav_args.pages(), nav_args.page as int, nav_args.index as int),
            )
        } else if c == 'k' {
            nav_outcome(
                a1,
                a0,
                r,
                advanced(nav_args.pages(), nav_args.page as int, nav_args.index as int),
            )
        } else if c == 'h' {
            nav_outcome(
                a1,
                a0,
                r,
                page_retreated(nav_args.pages(), nav_args.page as int, nav_args.index as int),
            )
        } else if c == 'l' {
            nav_outcome(
                a1,
                a0,
                r,
                page_advanced(nav_args.pages(), nav_args.page as int, nav_args.index as int),
            )
        } else if c == 'c' {
            match sel {
                Some(cr) => a1 == a0 && !r.unhandled && r.action == SideAction::OpenCratesPage(
                    cr.id,
                ),
                None => warned(a1, a0, now) && !r.unhandled && r.action is Nothing,
            }
        } else if c == 'd' {
            match sel {
                Some(cr) => a1 == a0 && !r.unhandled && r.action == SideAction::OpenDocsPage(
                    cr.id,
                ),
                None => warned(a1, a0, now) && !r.unhandled && r.action is Nothing,
            }
        } else if c == 'g' {
            match sel {
                Some(cr) => match cr.repository {
                    Some(url) => a1 == a0 && !r.unhandled && r.action
                        == SideAction::OpenRepository(url),
                    None => warned(a1, a0, now) && !r.unhandled && r.action is Nothing,
                },
                None => warned(a1, a0, now) && !r.unhandled && r.action is Nothing,
            }
        } else if c == 'a' {
            match sel {
                Some(cr) => a1 == a0 && !r.unhandled && r.action == SideAction::AddDependency(
                    cr.id,
                    cr.spec_preferred_version(),
                ),
                None => warned(a1, a0, now) && !r.unhandled && r.action is Nothing,
            }
        } else if c == 'r' {
            match sel {
                Some(cr) => a1 == a0 && !r.unhandled && r.action == SideAction::RemoveDependency(
                    cr.id,
                ),
                None => warned(a1, a0, now) && !r.unhandled && r.action is Nothing,
            }
        } else if c == 'i' {
            match sel {
                Some(cr) => a1 == a0 && !r.unhandled && r.action == SideAction::Install(cr.id),
                None => warned(a1, a0, now) && !r.unhandled && r.action is Nothing,
            }
        } else if c == 'f' {
            match sel {
                Some(cr) => {
                    &&& a1.config.favourites.crates@ == a0.config.favourites.crates@.push(cr.id)
                    &&& a1.config.terminal == a0.config.terminal
                    &&& a1.config.colors == a0.config.colors
                    &&& a1.config.search == a0.config.search
                    &&& a1.tab == a0.tab && a1.warning_timer == a0.warning_timer
                        && a1.error_timer == a0.error_timer
                    &&& a1.search_page == a0.search_page
                    &&& !r.unhandled && r.action is Nothing
                },
                None => warned(a1, a0, now) && !r.unhandled && r.action is Nothing,
            }
        } else {
            a1 == a0 && r.unhandled && r.action is Nothing
        },
        _ => a1 == a0 && r.unhandled && r.action is Nothing,
    }
}

/// The transition of a resize: heights under the minimum usable 13 rows are
/// reported unused; otherwise the per-page capacity is recomputed from the
/// height and the results, if any, are re-flowed to it.
pub open spec fn resize_transition(a0: App, a1: App, h: u16, r: Outcome) -> bool {
    if h < 13 {
        a1 == a0 && r.unhandled && r.action is Nothing
    } else {
        let pp = (h - 13) / 4 + 1;
        &&& same_outside_search_page(a1, a0)
        &&& a1.search_page.query_state == a0.search_page.query_state
        &&& a1.search_page.expanded_help_message == a0.search_page.expanded_help_message
        &&& a1.search_page.per_page == pp
        &&& match a0.search_page.results_state {
            None => a1.search_page.results_state is None,
            Some(s0) => {
                &&& a1.search_page.results_state matches Some(s1)
                &&& s1.query == s0.query
                &&& s1.loaded_all == s0.loaded_all
                &&& (s1.pending_fetch is Some) == (s0.pending_fetch is Some)
                &&& s1.pages() == chunks_of(flat_items(s0.results@), pp as int)
                &&& (s1.page as int, s1.index as int) == reflow_selection(
                    flat_items(s0.results@).len() as int,
                    s0.page as int,
                    s0.index as int,
                    pp as int,
                )
            },
        }
        &&& !r.unhandled && r.action is Nothing
    }
}

/// The whole dispatch table of the search page: editing mode or navigation
/// mode, selected by whether the query is being edited, with resizes
/// applying in both.
pub open spec fn event_transition(a0: App, a1: App, e: InputEvent, now: u64, r: Outcome) -> bool {
    match e {
        InputEvent::Key(k) => if a0.search_page.query_state.active {
            edit_mode_transition(a0, a1, k, r)
        } else {
            nav_mode_transition(a0, a1, k, now, r)
        },
        InputEvent::Resize(_w, h) => resize_transition(a0, a1, h, r),
        InputEvent::Other => a1 == a0 && !r.unhandled && r.action is Nothing,
    }
}

/// Dispatches one input event to the search page, at the given time.
///
/// In editing mode keys edit the query, Enter commits it into a fresh
/// results state, Escape leaves editing. In navigation mode the fixed key
/// table navigates the results, toggles help, re-enters editing, appends the
/// selected item to the favourites, or asks the host for a side effect on
/// the selected item — raising the warning signal instead when nothing is
/// selected. Resizes recompute the per-page capacity and re-flow the pages.
/// Whatever the page has no use for is reported unused.
pub fn event(app: &mut App, e: InputEvent, now_ms: u64) -> (r: Outcome)
    requires
        old(app).wf(),
        old(app).search_page.query_state.query@.len() < usize::MAX,
    ensures
        final(app).wf(),
        event_transition(*old(app), *final(app), e, now_ms, r),
{
    match e {
        InputEvent::Key(k) => {
            if app.search_page.query_state.active {
                match k {
                    Key::Char(c) => {
                        app.search_page.query_state.insert_char(c);
                        Outcome { unhandled: false, action: SideAction::Nothing }
                    },
                    Key::Backspace => {
                        app.search_page.query_state.backspace();
                        Outcome { unhandled: false, action: SideAction::Nothing }
                    },
                    Key::Delete => {
                        app.search_page.query_state.delete();
                        Outcome { unhandled: false, action: SideAction::Nothing }
                    },
                    Key::Left => {
                        app.search_page.query_state.cursor_left();
                        Outcome { unhandled: false, action: SideAction::Nothing }
                    },
                    Key::Right => {
                        app.search_page.query_state.cursor_right();
                        Outcome { unhandled: false, action: SideAction::Nothing }
                    },
                    Key::Enter => {
                        let q = clone_chars(&app.search_page.query_state.query);
                        app.search_page.results_state = Some(ResultsState::new(q));
                        app.search_page.query_state.active = false;
                        Outcome { unhandled: false, action: SideAction::Nothing }
                    },
                    Key::Esc => {
                        app.search_page.query_state.active = false;
                        Outcome { unhandled: false, action: SideAction::Nothing }
                    },
                    _ => Outcome { unhandled: true, action: SideAction::Nothing },
                }
            } else {
                match k {
                    Key::Up => {
                        app.search_page.previous_index();
                        Outcome { unhandled: false, action: SideAction::Nothing }
                    },
                    Key::Down => {
                        app.search_page.next_index();
                        Outcome { unhandled: false, action: SideAction::Nothing }
                    },
                    Key::Left => {
                        app.search_page.previous_page();
                        Outcome { unhandled: false, action: SideAction::Nothing }
                    },
                    Key::Right => {
                        app.search_page.next_page();
                        Outcome { unhandled: false, action: SideAction::Nothing }
                    },
                    Key::Char(c) => {
                        if c == 's' {
                            app.search_page.query_state.active = true;
                            Outcome { unhandled: false, action: SideAction::Nothing }
                        } else if c == '?' {
                            app.search_page.expanded_help_message =
                                !app.search_page.expanded_help_message;
                            Outcome { unhandled: false, action: SideAction::Nothing }
                        } else if c == 'j' {
                            app.search_page.previous_index();
                            Outcome { unhandled: false, action: SideAction::Nothing }
                        } else if c == 'k' {
                            app.search_page.next_index();
                            Outcome { unhandled: false, action: SideAction::Nothing }
                        } else if c == 'h' {
                            app.search_page.previous_page();
                            Outcome { unhandled: false, action: SideAction::Nothing }
                        } else if c == 'l' {
                            app.search_page.next_page();
                            Outcome { unhandled: false, action: SideAction::Nothing }
                        } else if c == 'c' {
                            match app.search_page.selected_crate() {
                                Some(cr) => Outcome {
                                    unhandled: false,
                                    action: SideAction::OpenCratesPage(cr.id),
                                },
                                None => {
                                    app.warn(now_ms);
                                    Outcome { unhandled: false, action: SideAction::Nothing }
                                },
                            }
                        } else if c == 'd' {
                            match app.search_page.selected_crate() {
                                Some(cr) => Outcome {
                                    unhandled: false,
                                    action: SideAction::OpenDocsPage(cr.id),
                                },
                                None => {
                                    app.warn(now_ms);
                                    Outcome { unhandled: false, action: SideAction::Nothing }
                                },
                            }
                        } else if c == 'g' {
                            match app.search_page.selected_crate() {
                                Some(cr) => match cr.repository {
                                    Some(url) => Outcome {
                                        unhandled: false,
                                        action: SideAction::OpenRepository(url),
                                    },
                                    None => {
                                        app.warn(now_ms);
                                        Outcome { unhandled: false, action: SideAction::Nothing }
                                    },
                                },
                                None => {
                                    app.warn(now_ms);
                                    Outcome { unhandled: false, action: SideAction::Nothing }
                                },
                            }
                        } else if c == 'a' {
                            match app.search_page.selected_crate() {
                                Some(cr) => {
                                    let version = cr.preferred_version();
                                    Outcome {
                                        unhandled: false,
                                        action: SideAction::AddDependency(cr.id, version),
                                    }
                                },
                                None => {
                                    app.warn(now_ms);
                                    Outcome { unhandled: false, action: SideAction::Nothing }
                                },
                            }
                        } else if c == 'r' {
                            match app.search_page.selected_crate() {
                                Some(cr) => Outcome {
                                    unhandled: false,
                                    action: SideAction::RemoveDependency(cr.id),
                                },
                                None => {
                                    app.warn(now_ms);
                                    Outcome { unhandled: false, action: SideAction::Nothing }
                                },
                            }
                        } else if c == 'i' {
                            match app.search_page.selected_crate() {
                                Some(cr) => Outcome {
                                    unhandled: false,
                                    action: SideAction::Install(cr.id),
                                },
                                None => {
                                    app.warn(now_ms);
                                    Outcome { unhandled: false, action: SideAction::Nothing }
                                },
                            }
                        } else if c == 'f' {
                            match app.search_page.selected_crate() {
                                Some(cr) => {
                                    app.config.favourites.crates.push(cr.id);
                                    Outcome { unhandled: false, action: SideAction::Nothing }
                                },
                                None => {
                                    app.warn(now_ms);
                                    Outcome { unhandled: false, action: SideAction::Nothing }
                                },
                            }
                        } else {
                            Outcome { unhandled: true, action: SideAction::Nothing }
                        }
                    },
                    _ => Outcome { unhandled: true, action: SideAction::Nothing },
                }
            }
        },
        InputEvent::Resize(_w, h) => {
            if h < 13 {
                Outcome { unhandled: true, action: SideAction::Nothing }
            } else {
                let pp = ((h - 13) / 4 + 1) as usize;
                app.search_page.per_page = pp;
                match &mut app.search_page.results_state {
                    Some(state) => state.re_flow(pp),
                    None => {},
                }
                Outcome { unhandled: false, action: SideAction::Nothing }
            }
        },
        InputEvent::Other => Outcome { unhandled: false, action: SideAction::Nothing },
    }
}

} // verus!
