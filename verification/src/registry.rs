//! Records returned by one page of a registry search, and the arithmetic
//! that turns the library's 0-based page and desired batch size into the
//! parameters the remote registry accepts. The HTTP call itself is the
//! embedding binary's job.

use vstd::prelude::*;

verus! {

/// The registry allows at most this many items per search page.
pub const MAX_SEARCH_LIMIT: usize = 100;

/// One package record of a search result batch. Immutable once received.
#[derive(PartialEq, Eq, Debug)]
pub struct Crate {
    pub id: String,
    pub description: Option<String>,
    pub downloads: usize,
    pub recent_downloads: usize,
    pub repository: Option<String>,
    pub max_version: String,
    pub max_stable_version: Option<String>,
}

fn clone_string_option(o: &Option<String>) -> (r: Option<String>)
    ensures
        r == *o,
{
    match o {
        Some(s) => Some(s.clone()),
        None => None,
    }
}

impl Clone for Crate {
    fn clone(&self) -> (r: Self)
        ensures
            r == *self,
    {
        Crate {
            id: self.id.clone(),
            description: clone_string_option(&self.description),
            downloads: self.downloads,
            recent_downloads: self.recent_downloads,
            repository: clone_string_option(&self.repository),
            max_version: self.max_version.clone(),
            max_stable_version: clone_string_option(&self.max_stable_version),
        }
    }
}

impl Crate {
    /// The version an "add dependency" action uses: the newest stable
    /// version when one exists, otherwise the newest version of any kind.
    pub open spec fn spec_preferred_version(&self) -> String {
        match self.max_stable_version {
            Some(v) => v,
            None => self.max_version,
        }
    }

    /// Returns a copy of the version to add as a dependency.
    pub fn preferred_version(&self) -> (r: String)
        ensures
            r == self.spec_preferred_version(),
    {
        match &self.max_stable_version {
            Some(v) => v.clone(),
            None => self.max_version.clone(),
        }
    }
}

/// Paging metadata the registry reports beside each batch.
#[derive(PartialEq, Eq, Debug)]
pub struct Meta {
    /// Link to the next remote page; absent when no further pages exist.
    pub next_page: Option<String>,
    /// Link to the previous remote page, if any.
    pub prev_page: Option<String>,
    /// Total number of matches the registry knows of.
    pub total: usize,
}

/// Everything one search call returns: the batch of items and its metadata.
#[derive(PartialEq, Eq, Debug)]
pub struct SearchResponse {
    pub crates: Vec<Crate>,
    pub meta: Meta,
}

/// The plain parameters of one registry search call, ready for the wire:
/// the remote registry pages from 1 and caps the batch size.
pub struct SearchRequest {
    pub query: Vec<char>,
    /// 1-based remote page number.
    pub page: usize,
    /// Requested batch size, at most [`MAX_SEARCH_LIMIT`].
    pub limit: usize,
}

/// Copies a character sequence, element for element.
pub fn clone_chars(v: &Vec<char>) -> (r: Vec<char>)
    ensures
        r@ == v@,
{
    let mut r: Vec<char> = Vec::new();
    let mut i: usize = 0;
    while i < v.len()
        invariant
            i <= v.len(),
            r@ == v@.take(i as int),
        decreases v.len() - i,
    {
        r.push(v[i]);
        i = i + 1;
        proof {
            assert(r@ =~= v@.take(i as int));
        }
    }
    proof {
        assert(v@.take(v.len() as int) =~= v@);
    }
    r
}

/// Turns the library's 0-based page number and desired batch size into the
/// parameters of one remote search call: the registry pages from 1 and
/// accepts at most [`MAX_SEARCH_LIMIT`] items per page.
pub fn search_request(query: &Vec<char>, page: usize, limit: usize) -> (r: SearchRequest)
    requires
        page < usize::MAX,
    ensures
        r.query@ == query@,
        r.page == page + 1,
        r.limit == if limit <= MAX_SEARCH_LIMIT {
            limit as int
        } else {
            MAX_SEARCH_LIMIT as int
        },
{
    let limit = if limit <= MAX_SEARCH_LIMIT {
        limit
    } else {
        MAX_SEARCH_LIMIT
    };
    SearchRequest { query: clone_chars(query), page: page + 1, limit }
}

} // verus!
