//! Core of a technology-radar catalog tool: the entry lifecycle engine.
//!
//! The library holds the verified logic: the catalog store semantics, the
//! markdown mirror naming and rendering, the creation wizard and generation
//! state machines, the screen navigator, and the search filters.  All I/O
//! (terminal, database connection, filesystem, clock) lives outside, in the
//! surrounding application, which feeds plain values in and carries effect
//! descriptions out.

pub mod domain;
pub mod filegen;
pub mod genfile;
pub mod input;
pub mod mirror;
pub mod models;
pub mod search;
pub mod state;
pub mod store;
pub mod strutil;
pub mod ui;
pub mod webview;
