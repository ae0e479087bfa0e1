//! The strongly-typed "now playing" record and its freshness policy.

use vstd::prelude::*;

verus! {

/// One "now playing" record. A value is only ever built whole: freshly
/// decoded from the bus, or parsed verbatim from the cache file.
#[derive(Debug)]
pub struct Metadata {
    /// Track title.
    pub title: String,
    /// Primary artist (first element of the protocol's artist list).
    pub artist: String,
    /// Total track duration in microseconds.
    pub length: i64,
    /// Playback offset in microseconds when the record was captured.
    pub position: i64,
    /// Wall-clock capture time, in whole seconds since the epoch.
    pub timestamp: u64,
}

/// The mathematical value of a [`Metadata`] record: its strings as character
/// sequences and its numbers as unbounded integers.
pub struct MetaModel {
    pub title: Seq<char>,
    pub artist: Seq<char>,
    pub length: int,
    pub position: int,
    pub timestamp: int,
}

impl View for Metadata {
    type V = MetaModel;

    open spec fn view(&self) -> MetaModel {
        MetaModel {
            title: self.title@,
            artist: self.artist@,
            length: self.length as int,
            position: self.position as int,
            timestamp: self.timestamp as int,
        }
    }
}

/// Age bound, in seconds, under which a cached record is still served
/// without a new bus round-trip.
pub const CACHE_TTL_SECS: u64 = 3;

/// Whether a record captured at `m.timestamp` is still fresh at `now`:
/// strictly younger than the TTL. A capture time in the future counts as
/// fresh, since its age is negative.
pub open spec fn fresh_at(m: MetaModel, now: int) -> bool {
    now - m.timestamp < CACHE_TTL_SECS
}

/// Freshness test of the cache policy: true iff the record's age at
/// `now_secs` is strictly below [`CACHE_TTL_SECS`].
pub fn is_fresh(m: &Metadata, now_secs: u64) -> (fresh: bool)
    ensures
        fresh == fresh_at(m@, now_secs as int),
{
    if now_secs >= m.timestamp {
        now_secs - m.timestamp < CACHE_TTL_SECS
    } else {
        true
    }
}

} // verus!
