//! The query facade: the cache fast path and the derived queries.
//!
//! The facade answers "what is playing" with as little bus traffic as the
//! freshness policy allows: a readable, parseable, fresh cache record is
//! served as is; anything else — absent file, corrupt bytes, stale record —
//! sends the caller to the bus for a fresh fetch and a write-back.

use vstd::prelude::*;

use crate::codec::encode_model;
use crate::codec::lemma_encode_parse;
use crate::codec::parse_metadata;
use crate::codec::parse_model;
use crate::codec::valid_model;
use crate::metadata::MetaModel;
use crate::metadata::Metadata;
use crate::metadata::fresh_at;
use crate::metadata::is_fresh;

verus! {

/// A zero-length track has no defined progress ratio.
#[derive(Debug, Clone, Copy, PartialEq, Eq, Structural)]
pub enum ProgressError {
    /// The record's `length` is zero, so `position / length` divides by
    /// zero; the query fails rather than yield an infinity quietly.
    DivideByZero,
}

/// What the facade decides from one cache read at time `now`: the record
/// served without bus traffic, or `None` when the cache was unreadable,
/// corrupt, or stale and a bus fetch must follow.
pub open spec fn spec_cache_decision(content: Option<Seq<char>>, now: int) -> Option<MetaModel> {
    match content {
        None => None,
        Some(s) => match parse_model(s) {
            None => None,
            Some(mm) => if fresh_at(mm, now) {
                Some(mm)
            } else {
                None
            },
        },
    }
}

/// The cache fast path: `content` is what reading the cache file yielded
/// (`None` when it was absent or unreadable). Returns the cached record
/// exactly when it parses and is still fresh at `now_secs`; `None` tells
/// the caller to fetch from the bus and write the result back.
pub fn fresh_from_cache(content: Option<&str>, now_secs: u64) -> (r: Option<Metadata>)
    ensures
        ({
            let c = match content {
                Some(s) => Some(s@),
                None => None::<Seq<char>>,
            };
            match r {
                Some(m) => spec_cache_decision(c, now_secs as int) == Some(m@),
                None => spec_cache_decision(c, now_secs as int) is None,
            }
        }),
{
    match content {
        None => None,
        Some(s) => match parse_metadata(s) {
            Err(_) => None,
            Ok(m) => if is_fresh(&m, now_secs) {
                Some(m)
            } else {
                None
            },
        },
    }
}

/// Writing a record back and querying again within the TTL serves that
/// very record from the cache alone: the second query costs no bus fetch
/// and returns a record equal in every field to the one written.
pub proof fn lemma_write_then_fresh_read(mm: MetaModel, now: int)
    requires
        valid_model(mm),
        fresh_at(mm, now),
    ensures
        spec_cache_decision(Some(encode_model(mm)), now) == Some(mm),
{
    lemma_encode_parse(mm);
}

/// The display name of a record: the artist and the title joined by
/// `" - "`.
pub fn get_song_name(m: &Metadata) -> (r: String)
    ensures
        r@ == m@.artist + " - "@ + m@.title,
{
    let mut r = String::new();
    r.append(m.artist.as_str());
    r.append(" - ");
    r.append(m.title.as_str());
    proof {
        assert(r@ =~= m@.artist + " - "@ + m@.title);
    }
    r
}

/// The progress of a record as the exact ratio `position / length`,
/// returned as its numerator and denominator. Fails with
/// [`ProgressError::DivideByZero`] exactly when `length` is zero.
pub fn get_song_progress(m: &Metadata) -> (r: Result<(i64, i64), ProgressError>)
    ensures
        m@.length == 0 ==> r == Err::<(i64, i64), ProgressError>(ProgressError::DivideByZero),
        m@.length != 0 ==> r == Ok::<(i64, i64), ProgressError>((m.position, m.length)),
{
    if m.length == 0 {
        Err(ProgressError::DivideByZero)
    } else {
        Ok((m.position, m.length))
    }
}

} // verus!
