//! Deduplicating vulnerability search with a dual-mode query model.
//!
//! The crate has two halves: a query model that a client keeps between
//! requests, expressed either as structured filter fields ("simple" mode)
//! or as a free-form query string ("complex" mode), and a result
//! aggregator that groups the raw per-advisory hits of a search index by
//! CVE identifier.

pub mod backend;
pub mod options;
pub mod params;
pub mod search;
pub mod text;
pub mod vuln;

use vstd::prelude::*;

verus! {

/// The largest page size the index is ever asked for.
pub const MAX_LIMIT: usize = 1000;

/// Returns the requested limit, capped at [`MAX_LIMIT`].
pub fn clamp_limit(limit: usize) -> (r: usize)
    ensures
        r == if limit < MAX_LIMIT { limit as int } else { MAX_LIMIT as int },
        r <= MAX_LIMIT,
{
    if limit < MAX_LIMIT {
        limit
    } else {
        MAX_LIMIT
    }
}

} // verus!
