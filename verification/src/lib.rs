//! Core engine of a terminal browser for a package registry: a typed search
//! query, results that stream in page by page from a background fetch, and
//! two-dimensional (page, index) navigation with wraparound.
//!
//! The library owns all decision logic: query editing, navigation arithmetic,
//! pagination re-flow on resize, fetch coordination (at most one request in
//! flight), and key dispatch. Network calls, terminal drawing, key-symbol
//! decoding and file persistence are left to the embedding binary, which
//! hands the library plain values and performs the actions it returns.

pub mod app;
pub mod config;
pub mod search;
pub mod events;
pub mod laws;
pub mod manage;
pub mod registry;
