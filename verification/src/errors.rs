//! Failure classes surfaced by the library.
//!
//! Transport failures are handed *in* by the caller (as a fetch outcome) and
//! never surface as errors here; a malformed page degrades to "no links
//! found". The library itself reports only a rejected configuration or a
//! rejected insert.

use vstd::prelude::*;

verus! {

#[derive(Debug, Clone, Copy, PartialEq, Eq, Structural)]
pub enum CrawlError {
    /// The seed URL is not an absolute `http://` or `https://` URL.
    Configuration,
    /// The link store cannot accept another row (its id space is exhausted).
    Persistence,
}

} // verus!
