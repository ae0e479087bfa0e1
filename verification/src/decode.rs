//! Decoding the player's loosely-typed metadata mapping.
//!
//! The bus hands the facade a heterogeneous string-keyed mapping. Decoding
//! narrows the three required fields — title, artist list, duration — into
//! one strongly-typed [`Metadata`] record, or fails with a [`DecodeError`]
//! that the caller propagates; no partial record is ever produced.

use vstd::prelude::*;

use crate::metadata::Metadata;
use crate::metadata::MetaModel;

verus! {

/// One tagged value of the metadata mapping: only the shapes the decoder
/// narrows to are distinguished, every other wire value is `Other`.
pub enum Value {
    /// A string value.
    Str(String),
    /// A list-of-strings value.
    StrList(Vec<String>),
    /// An integer value.
    Int(i64),
    /// Any value of a shape the decoder never accepts.
    Other,
}

/// Why decoding a mapping failed.
#[derive(Debug, Clone, Copy, PartialEq, Eq, Structural)]
pub enum DecodeError {
    /// A required key is absent from the mapping.
    MissingKey,
    /// A required key holds a value of the wrong shape, or the artist list
    /// is empty.
    WrongType,
}

/// The value at `key`: the first entry whose key matches, as the mapping
/// carries each protocol key at most once.
pub open spec fn key_lookup(entries: Seq<(String, Value)>, key: Seq<char>) -> Option<Value>
    decreases entries.len(),
{
    if entries.len() == 0 {
        None
    } else if entries[0].0@ == key {
        Some(entries[0].1)
    } else {
        key_lookup(entries.drop_first(), key)
    }
}

/// The decoder's whole contract: the record produced from a mapping, a
/// position and a capture time, or the error. A missing required key gives
/// `MissingKey`; a present key of the wrong shape — or an empty artist
/// list — gives `WrongType`, checking title, then artist, then length.
pub open spec fn spec_decode(entries: Seq<(String, Value)>, position: int, now: int) -> Result<
    MetaModel,
    DecodeError,
> {
    match key_lookup(entries, "xesam:title"@) {
        None => Err(DecodeError::MissingKey),
        Some(tv) => match tv {
            Value::Str(title) => match key_lookup(entries, "xesam:artist"@) {
                None => Err(DecodeError::MissingKey),
                Some(av) => match av {
                    Value::StrList(artists) => if artists@.len() == 0 {
                        Err(DecodeError::WrongType)
                    } else {
                        match key_lookup(entries, "mpris:length"@) {
                            None => Err(DecodeError::MissingKey),
                            Some(lv) => match lv {
                                Value::Int(length) => Ok(
                                    MetaModel {
                                        title: title@,
                                        artist: artists@[0]@,
                                        length: length as int,
                                        position: position,
                                        timestamp: now,
                                    },
                                ),
                                _ => Err(DecodeError::WrongType),
                            },
                        }
                    },
                    _ => Err(DecodeError::WrongType),
                },
            },
            _ => Err(DecodeError::WrongType),
        },
    }
}

/// Finds the first entry of `entries` whose key is `key`.
fn lookup<'a>(entries: &'a Vec<(String, Value)>, key: &String) -> (r: Option<&'a Value>)
    ensures
        match r {
            Some(v) => key_lookup(entries@, key@) == Some(*v),
            None => key_lookup(entries@, key@) is None,
        },
{
    let mut i: usize = 0;
    proof {
        assert(entries@.skip(0) =~= entries@);
    }
    while i < entries.len()
        invariant
            i <= entries@.len(),
            key_lookup(entries@, key@) == key_lookup(entries@.skip(i as int), key@),
        decreases entries@.len() - i,
    {
        let pair = &entries[i];
        proof {
            assert(entries@.skip(i as int)[0] == entries@[i as int]);
        }
        if pair.0 == *key {
            return Some(&pair.1);
        }
        proof {
            assert(entries@.skip(i as int).drop_first() =~= entries@.skip(i as int + 1));
        }
        i = i + 1;
    }
    proof {
        assert(entries@.skip(i as int) =~= Seq::<(String, Value)>::empty());
    }
    None
}

/// Decodes the mapping fetched from the bus, together with the separately
/// fetched playback position and the capture time, into one record.
/// Succeeds exactly on mappings holding a string title, a non-empty string
/// list of artists (the first is taken), and an integer length; the record
/// then carries exactly those values, stamped with `now_secs`.
pub fn decode_metadata(entries: &Vec<(String, Value)>, position: i64, now_secs: u64) -> (r: Result<
    Metadata,
    DecodeError,
>)
    ensures
        ({
            let sd = spec_decode(entries@, position as int, now_secs as int);
            match r {
                Ok(m) => sd == Ok::<MetaModel, DecodeError>(m@),
                Err(e) => sd == Err::<MetaModel, DecodeError>(e),
            }
        }),
{
    let title_key = String::from_str("xesam:title");
    let tv = match lookup(entries, &title_key) {
        Some(v) => v,
        None => {
            return Err(DecodeError::MissingKey);
        },
    };
    let title = match tv {
        Value::Str(t) => t,
        _ => {
            return Err(DecodeError::WrongType);
        },
    };
    let artist_key = String::from_str("xesam:artist");
    let av = match lookup(entries, &artist_key) {
        Some(v) => v,
        None => {
            return Err(DecodeError::MissingKey);
        },
    };
    let artists = match av {
        Value::StrList(a) => a,
        _ => {
            return Err(DecodeError::WrongType);
        },
    };
    if artists.len() == 0 {
        return Err(DecodeError::WrongType);
    }
    let length_key = String::from_str("mpris:length");
    let lv = match lookup(entries, &length_key) {
        Some(v) => v,
        None => {
            return Err(DecodeError::MissingKey);
        },
    };
    let length = match lv {
        Value::Int(l) => *l,
        _ => {
            return Err(DecodeError::WrongType);
        },
    };
    let m = Metadata {
        title: title.clone(),
        artist: artists[0].clone(),
        length,
        position,
        timestamp: now_secs,
    };
    Ok(m)
}

} // verus!
