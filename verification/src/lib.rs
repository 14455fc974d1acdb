//! Bounded-depth web link discovery.
//!
//! Starting from a seed URL, the traversal engine fetches a page, extracts
//! the absolute outbound links it carries, records each discovered link with
//! its depth and its parent link, and schedules each new link for expansion
//! until a configured maximum depth is reached. The engine itself performs no
//! I/O: a caller fetches each page and hands the outcome back, while the
//! engine maintains the link store and its lineage invariants.

pub mod engine;
pub mod errors;
pub mod page;
pub mod store;
pub mod url;
