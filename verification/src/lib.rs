//! Core state controller for a single-page catalog browser.
//!
//! The library owns the application state of a client that browses a
//! remote catalog of cached entries: it composes remote queries from
//! filter criteria (tag, free-text search, date range, sort order),
//! tracks at most one in-flight request per resource kind, merges
//! asynchronous results back into a single view state, and resolves
//! named views against that state.

pub mod laws;
pub mod query;
pub mod router;
pub mod state;
pub mod text;
