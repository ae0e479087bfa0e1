use spotify_manage::codec::encode_metadata;
use spotify_manage::codec::parse_metadata;
use spotify_manage::decode::decode_metadata;
use spotify_manage::decode::DecodeError;
use spotify_manage::decode::Value;
use spotify_manage::metadata::is_fresh;
use spotify_manage::metadata::Metadata;
use spotify_manage::queries::fresh_from_cache;
use spotify_manage::queries::get_song_name;
use spotify_manage::queries::get_song_progress;
use spotify_manage::queries::ProgressError;

fn record(title: &str, artist: &str, length: i64, position: i64, timestamp: u64) -> Metadata {
    Metadata {
        title: title.to_string(),
        artist: artist.to_string(),
        length,
        position,
        timestamp,
    }
}

fn full_mapping() -> Vec<(String, Value)> {
    vec![
        (
            "mpris:trackid".to_string(),
            Value::Str("/org/mpris/track/1".to_string()),
        ),
        (
            "xesam:title".to_string(),
            Value::Str("One More Time".to_string()),
        ),
        (
            "xesam:artist".to_string(),
            Value::StrList(vec!["Daft Punk".to_string(), "Romanthony".to_string()]),
        ),
        ("mpris:length".to_string(), Value::Int(200000)),
        ("mpris:artUrl".to_string(), Value::Other),
    ]
}

#[test]
fn decode_valid_mapping() {
    let entries = full_mapping();
    let m = decode_metadata(&entries, 50000, 456).unwrap();
    assert_eq!(m.title, "One More Time");
    assert_eq!(m.artist, "Daft Punk");
    assert_eq!(m.length, 200000);
    assert_eq!(m.position, 50000);
    assert_eq!(m.timestamp, 456);
}

#[test]
fn decode_missing_title() {
    let entries: Vec<(String, Value)> = full_mapping()
        .into_iter()
        .filter(|(k, _)| k != "xesam:title")
        .collect();
    assert_eq!(
        decode_metadata(&entries, 0, 0).unwrap_err(),
        DecodeError::MissingKey
    );
}

#[test]
fn decode_missing_artist() {
    let entries: Vec<(String, Value)> = full_mapping()
        .into_iter()
        .filter(|(k, _)| k != "xesam:artist")
        .collect();
    assert_eq!(
        decode_metadata(&entries, 0, 0).unwrap_err(),
        DecodeError::MissingKey
    );
}

#[test]
fn decode_missing_length() {
    let entries: Vec<(String, Value)> = full_mapping()
        .into_iter()
        .filter(|(k, _)| k != "mpris:length")
        .collect();
    assert_eq!(
        decode_metadata(&entries, 0, 0).unwrap_err(),
        DecodeError::MissingKey
    );
}

#[test]
fn decode_empty_mapping() {
    let entries: Vec<(String, Value)> = Vec::new();
    assert_eq!(
        decode_metadata(&entries, 0, 0).unwrap_err(),
        DecodeError::MissingKey
    );
}

#[test]
fn decode_wrong_typed_title() {
    let mut entries = full_mapping();
    entries[1] = ("xesam:title".to_string(), Value::Int(7));
    assert_eq!(
        decode_metadata(&entries, 0, 0).unwrap_err(),
        DecodeError::WrongType
    );
}

#[test]
fn decode_wrong_typed_artist() {
    let mut entries = full_mapping();
    entries[2] = ("xesam:artist".to_string(), Value::Str("Daft Punk".to_string()));
    assert_eq!(
        decode_metadata(&entries, 0, 0).unwrap_err(),
        DecodeError::WrongType
    );
}

#[test]
fn decode_wrong_typed_length() {
    let mut entries = full_mapping();
    entries[3] = ("mpris:length".to_string(), Value::Str("200000".to_string()));
    assert_eq!(
        decode_metadata(&entries, 0, 0).unwrap_err(),
        DecodeError::WrongType
    );
}

#[test]
fn decode_opaque_title_value() {
    let mut entries = full_mapping();
    entries[1] = ("xesam:title".to_string(), Value::Other);
    assert_eq!(
        decode_metadata(&entries, 0, 0).unwrap_err(),
        DecodeError::WrongType
    );
}

#[test]
fn decode_empty_artist_list() {
    let mut entries = full_mapping();
    entries[2] = ("xesam:artist".to_string(), Value::StrList(Vec::new()));
    assert_eq!(
        decode_metadata(&entries, 0, 0).unwrap_err(),
        DecodeError::WrongType
    );
}

#[test]
fn encode_exact_text() {
    let m = record("hi", "a", 0, -5, 7);
    let expected = format!(
        "title {:020} hi\nartist {:020} a\nlength +{:020}\nposition -{:020}\ntimestamp {:020}\n",
        2, 1, 0, 5, 7
    );
    assert_eq!(encode_metadata(&m), expected);
}

#[test]
fn cache_round_trip() {
    let m = record("One More Time", "Daft Punk", 200000, 50000, 123456789);
    let text = encode_metadata(&m);
    let back = parse_metadata(&text).unwrap();
    assert_eq!(back.title, m.title);
    assert_eq!(back.artist, m.artist);
    assert_eq!(back.length, m.length);
    assert_eq!(back.position, m.position);
    assert_eq!(back.timestamp, m.timestamp);
}

#[test]
fn cache_round_trip_awkward_strings() {
    let m = record("a\nb - 12 title 9", " spaced  out ", -1, 9, 0);
    let text = encode_metadata(&m);
    let back = parse_metadata(&text).unwrap();
    assert_eq!(back.title, m.title);
    assert_eq!(back.artist, m.artist);
    assert_eq!(back.length, m.length);
    assert_eq!(back.position, m.position);
    assert_eq!(back.timestamp, m.timestamp);
}

#[test]
fn cache_round_trip_extremes() {
    let m = record("", "", i64::MIN, i64::MAX, u64::MAX);
    let text = encode_metadata(&m);
    let back = parse_metadata(&text).unwrap();
    assert_eq!(back.title, "");
    assert_eq!(back.artist, "");
    assert_eq!(back.length, i64::MIN);
    assert_eq!(back.position, i64::MAX);
    assert_eq!(back.timestamp, u64::MAX);
}

#[test]
fn parse_rejects_corrupt_text() {
    assert!(parse_metadata("").is_err());
    assert!(parse_metadata("garbage").is_err());
    assert!(parse_metadata("title 00000000000000000002 hi").is_err());
    let good = encode_metadata(&record("hi", "a", 1, 2, 3));
    let mut truncated = good.clone();
    truncated.pop();
    assert!(parse_metadata(&truncated).is_err());
    let mut trailing = good.clone();
    trailing.push('x');
    assert!(parse_metadata(&trailing).is_err());
    assert!(parse_metadata(&good).is_ok());
}

#[test]
fn parse_rejects_bad_numerals() {
    let short_count = format!(
        "title {:019} hi\nartist {:020} a\nlength +{:020}\nposition +{:020}\ntimestamp {:020}\n",
        2, 1, 0, 0, 0
    );
    assert!(parse_metadata(&short_count).is_err());
    let bare_length = format!(
        "title {:020} hi\nartist {:020} a\nlength {:020}\nposition +{:020}\ntimestamp {:020}\n",
        2, 1, 0, 0, 0
    );
    assert!(parse_metadata(&bare_length).is_err());
}

#[test]
fn freshness_now_and_ten_seconds() {
    let m = record("t", "a", 1, 0, 1000);
    assert!(is_fresh(&m, 1000));
    assert!(!is_fresh(&m, 1010));
}

#[test]
fn freshness_boundaries() {
    let m = record("t", "a", 1, 0, 1000);
    assert!(is_fresh(&m, 1002));
    assert!(!is_fresh(&m, 1003));
    assert!(is_fresh(&m, 999));
}

#[test]
fn progress_quarter() {
    let m = record("t", "a", 200000, 50000, 0);
    let (position, length) = get_song_progress(&m).unwrap();
    assert_eq!((position, length), (50000, 200000));
    assert_eq!(position as f64 / length as f64, 0.25);
}

#[test]
fn progress_zero_length_fails() {
    let m = record("t", "a", 0, 50000, 0);
    assert_eq!(
        get_song_progress(&m).unwrap_err(),
        ProgressError::DivideByZero
    );
}

#[test]
fn song_name_joins_artist_and_title() {
    let m = record("One More Time", "Daft Punk", 1, 0, 0);
    assert_eq!(get_song_name(&m), "Daft Punk - One More Time");
}

#[test]
fn cache_decision_paths() {
    let m = record("t", "a", 1, 0, 500);
    let text = encode_metadata(&m);
    assert!(fresh_from_cache(None, 500).is_none());
    assert!(fresh_from_cache(Some("not a record"), 500).is_none());
    assert!(fresh_from_cache(Some(&text), 510).is_none());
    let hit = fresh_from_cache(Some(&text), 502).unwrap();
    assert_eq!(hit.title, m.title);
    assert_eq!(hit.timestamp, m.timestamp);
}

#[test]
fn end_to_end_cache_population() {
    let now: u64 = 500;
    // Cache absent: the facade decides to fetch from the bus.
    assert!(fresh_from_cache(None, now).is_none());
    // One metadata fetch and one position fetch later, decode the record.
    let entries = full_mapping();
    let m = decode_metadata(&entries, 50000, now).unwrap();
    // Write-back: the cache file now holds exactly the fetched record.
    let cache_file = encode_metadata(&m);
    let stored = parse_metadata(&cache_file).unwrap();
    assert_eq!(stored.title, m.title);
    assert_eq!(stored.artist, m.artist);
    assert_eq!(stored.length, m.length);
    assert_eq!(stored.position, m.position);
    assert_eq!(stored.timestamp, m.timestamp);
    // A second query within the TTL is served from the cache alone.
    let again = fresh_from_cache(Some(&cache_file), now + 2).unwrap();
    assert_eq!(again.title, m.title);
    assert_eq!(again.artist, m.artist);
    assert_eq!(again.length, m.length);
    assert_eq!(again.position, m.position);
    assert_eq!(again.timestamp, m.timestamp);
    // Past the TTL the same record is stale and forces a refetch.
    assert!(fresh_from_cache(Some(&cache_file), now + 10).is_none());
}
