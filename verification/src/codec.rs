//! The canonical text form of the one cache record.
//!
//! A record is five lines, one per field, in a fixed order. The two string
//! fields are length-prefixed so that titles may contain any character, and
//! every integer is a fixed-width decimal numeral (see [`crate::numerals`]):
//!
//! ```text
//! title <20 digits> <that many characters>
//! artist <20 digits> <that many characters>
//! length <sign><20 digits>
//! position <sign><20 digits>
//! timestamp <20 digits>
//! ```
//!
//! [`encode_metadata`] produces exactly [`encode_model`] of the record, and
//! [`parse_metadata`] accepts a string exactly when [`parse_model`] does;
//! [`lemma_encode_parse`] ties the two together as a round trip.

use vstd::prelude::*;

use crate::metadata::Metadata;
use crate::metadata::MetaModel;
use crate::numerals::DEC_WIDTH;
use crate::numerals::dec_digits;
use crate::numerals::spec_scan_dec;
use crate::numerals::scan_dec;
use crate::numerals::append_dec;
use crate::numerals::lemma_dec_digits_props;
use crate::numerals::lemma_pow10_width;

verus! {

/// The cache file held bytes that are not a record; the reader treats this
/// as a cache miss, never as fatal.
#[derive(Debug)]
pub struct CorruptError;

/// A model is encodable when its numbers fit the machine record: string
/// lengths and the timestamp in `u64`, duration and position in `i64`.
/// The view of every [`Metadata`] value satisfies it.
pub open spec fn valid_model(mm: MetaModel) -> bool {
    &&& mm.title.len() <= u64::MAX
    &&& mm.artist.len() <= u64::MAX
    &&& i64::MIN <= mm.length <= i64::MAX
    &&& i64::MIN <= mm.position <= i64::MAX
    &&& 0 <= mm.timestamp <= u64::MAX
}

/// The sign character of a signed field.
pub open spec fn sign_seq(v: int) -> Seq<char> {
    if v < 0 {
        "-"@
    } else {
        "+"@
    }
}

/// The magnitude of a signed field.
pub open spec fn mag(v: int) -> nat {
    if v < 0 {
        (-v) as nat
    } else {
        v as nat
    }
}

/// The serialized form of a record: what [`encode_metadata`] writes.
pub open spec fn encode_model(mm: MetaModel) -> Seq<char> {
    "title "@ + dec_digits(mm.title.len(), DEC_WIDTH as nat) + " "@ + mm.title + "\n"@ + "artist "@
        + dec_digits(mm.artist.len(), DEC_WIDTH as nat) + " "@ + mm.artist + "\n"@ + "length "@
        + sign_seq(mm.length) + dec_digits(mag(mm.length), DEC_WIDTH as nat) + "\n"@
        + "position "@ + sign_seq(mm.position) + dec_digits(mag(mm.position), DEC_WIDTH as nat)
        + "\n"@ + "timestamp "@ + dec_digits(mm.timestamp as nat, DEC_WIDTH as nat) + "\n"@
}

/// The literal `lit` read at position `i`, advancing the cursor past it.
pub open spec fn spec_expect(s: Seq<char>, i: int, lit: Seq<char>) -> Option<int> {
    if 0 <= i && i + lit.len() <= s.len() && s.subrange(i, i + lit.len()) == lit {
        Some(i + lit.len())
    } else {
        None
    }
}

/// Exactly `n` characters read at position `i`.
pub open spec fn spec_take(s: Seq<char>, i: int, n: int) -> Option<Seq<char>> {
    if 0 <= i && 0 <= n && i + n <= s.len() {
        Some(s.subrange(i, i + n))
    } else {
        None
    }
}

/// A sign character and a [`DEC_WIDTH`]-digit magnitude read at position
/// `i`, as an `i64` if the value fits.
pub open spec fn spec_scan_signed(s: Seq<char>, i: int) -> Option<i64> {
    if 0 <= i < s.len() {
        if s[i] == '+' {
            match spec_scan_dec(s, i + 1) {
                Some(m) => if m <= i64::MAX {
                    Some(m as i64)
                } else {
                    None
                },
                None => None,
            }
        } else if s[i] == '-' {
            match spec_scan_dec(s, i + 1) {
                Some(m) => if m <= 9_223_372_036_854_775_808u64 {
                    Some((-(m as int)) as i64)
                } else {
                    None
                },
                None => None,
            }
        } else {
            None
        }
    } else {
        None
    }
}

/// The record a string denotes, if any: what [`parse_metadata`] accepts.
pub open spec fn parse_model(s: Seq<char>) -> Option<MetaModel> {
    match spec_expect(s, 0, "title "@) {
        None => None,
        Some(i1) => match spec_scan_dec(s, i1) {
            None => None,
            Some(tlen) => match spec_expect(s, i1 + DEC_WIDTH as int, " "@) {
                None => None,
                Some(i2) => match spec_take(s, i2, tlen as int) {
                    None => None,
                    Some(title) => match spec_expect(s, i2 + tlen as int, "\n"@) {
                        None => None,
                        Some(i3) => match spec_expect(s, i3, "artist "@) {
                            None => None,
                            Some(i4) => match spec_scan_dec(s, i4) {
                                None => None,
                                Some(alen) => match spec_expect(s, i4 + DEC_WIDTH as int, " "@) {
                                    None => None,
                                    Some(i5) => match spec_take(s, i5, alen as int) {
                                        None => None,
                                        Some(artist) => match spec_expect(
                                            s,
                                            i5 + alen as int,
                                            "\n"@,
                                        ) {
                                            None => None,
                                            Some(i6) => match spec_expect(s, i6, "length "@) {
                                                None => None,
                                                Some(i7) => match spec_scan_signed(s, i7) {
                                                    None => None,
                                                    Some(length) => match spec_expect(
                                                        s,
                                                        i7 + 1 + DEC_WIDTH as int,
                                                        "\n"@,
                                                    ) {
                                                        None => None,
                                                        Some(i8) => match spec_expect(
                                                            s,
                                                            i8,
                                                            "position "@,
                                                        ) {
                                                            None => None,
                                                            Some(i9) => match spec_scan_signed(
                                                                s,
                                                                i9,
                                                            ) {
                                                                None => None,
                                                                Some(position) => match spec_expect(
                                                                    s,
                                                                    i9 + 1 + DEC_WIDTH as int,
                                                                    "\n"@,
                                                                ) {
                                                                    None => None,
                                                                    Some(i10) => match spec_expect(
                                                                        s,
                                                                        i10,
                                                                        "timestamp "@,
                                                                    ) {
                                                                        None => None,
                                                                        Some(i11) => match spec_scan_dec(
                                                                            s,
                                                                            i11,
                                                                        ) {
                                                                            None => None,
                                                                            Some(ts) => match spec_expect(
                                                                                s,
                                                                                i11
                                                                                    + DEC_WIDTH as int,
                                                                                "\n"@,
                                                                            ) {
                                                                                None => None,
                                                                                Some(i12) => if i12
                                                                                    == s.len() {
                                                                                    Some(
                                                                                        MetaModel {
                                                                                            title,
                                                                                            artist,
                                                                                            length: length as int,
                                                                                            position: position as int,
                                                                                            timestamp: ts as int,
                                                                                        },
                                                                                    )
                                                                                } else {
                                                                                    None
                                                                                },
                                                                            },
                                                                        },
                                                                    },
                                                                },
                                                            },
                                                        },
                                                    },
                                                },
                                            },
                                        },
                                    },
                                },
                            },
                        },
                    },
                },
            },
        },
    }
}

/// Reads the literal `lit` at character position `i` of `s`.
fn expect_lit(s: &str, i: usize, lit: &str) -> (r: Option<usize>)
    ensures
        match r {
            Some(j) => spec_expect(s@, i as int, lit@) == Some(j as int),
            None => spec_expect(s@, i as int, lit@) is None,
        },
{
    let n = s.unicode_len();
    let ll = lit.unicode_len();
    if i > n || ll > n - i {
        return None;
    }
    let mut k: usize = 0;
    while k < ll
        invariant
            n == s@.len(),
            ll == lit@.len(),
            i + ll <= n,
            k <= ll,
            forall|q: int| 0 <= q < k ==> s@[i + q] == lit@[q],
        decreases ll - k,
    {
        let a = s.get_char(i + k);
        let b = lit.get_char(k);
        if a != b {
            proof {
                let sub = s@.subrange(i as int, i as int + lit@.len());
                assert(sub[k as int] == s@[i + k]);
                assert(sub != lit@);
            }
            return None;
        }
        k = k + 1;
    }
    proof {
        assert(s@.subrange(i as int, i as int + lit@.len()) =~= lit@);
    }
    Some(i + ll)
}

/// Reads exactly `n` characters at position `i` of `s`.
fn take_chars<'a>(s: &'a str, i: usize, n: u64) -> (r: Option<&'a str>)
    ensures
        match r {
            Some(t) => spec_take(s@, i as int, n as int) == Some(t@),
            None => spec_take(s@, i as int, n as int) is None,
        },
{
    let len = s.unicode_len();
    if i > len {
        return None;
    }
    let rem = len - i;
    if n > rem as u64 {
        return None;
    }
    let cnt = n as usize;
    Some(s.substring_char(i, i + cnt))
}

/// Reads a sign character and magnitude at position `i` of `s`.
fn scan_signed(s: &str, i: usize) -> (r: Option<i64>)
    ensures
        r == spec_scan_signed(s@, i as int),
{
    let n = s.unicode_len();
    if i >= n {
        return None;
    }
    let c = s.get_char(i);
    if c == '+' {
        match scan_dec(s, i + 1) {
            Some(m) => if m <= 9_223_372_036_854_775_807u64 {
                Some(m as i64)
            } else {
                None
            },
            None => None,
        }
    } else if c == '-' {
        match scan_dec(s, i + 1) {
            Some(m) => if m <= 9_223_372_036_854_775_808u64 {
                if m == 9_223_372_036_854_775_808u64 {
                    Some(i64::MIN)
                } else {
                    Some(-(m as i64))
                }
            } else {
                None
            },
            None => None,
        }
    } else {
        None
    }
}

/// Appends the sign-and-magnitude rendering of `v`.
fn append_signed(out: &mut String, v: i64)
    ensures
        final(out)@ == old(out)@ + sign_seq(v as int) + dec_digits(
            mag(v as int),
            DEC_WIDTH as nat,
        ),
{
    let ghost pre = out@;
    if v >= 0 {
        out.append("+");
        append_dec(out, v as u64);
    } else {
        out.append("-");
        let m = ((-(v + 1)) as u64) + 1;
        proof {
            assert(m as int == -(v as int));
        }
        append_dec(out, m);
    }
    proof {
        assert(out@ =~= pre + sign_seq(v as int) + dec_digits(mag(v as int), DEC_WIDTH as nat));
    }
}

/// Serializes one record into the canonical cache text.
pub fn encode_metadata(m: &Metadata) -> (r: String)
    ensures
        r@ == encode_model(m@),
        valid_model(m@),
{
    let mut out = String::new();
    out.append("title ");
    let tlen = m.title.as_str().unicode_len();
    append_dec(&mut out, tlen as u64);
    out.append(" ");
    out.append(m.title.as_str());
    out.append("\n");
    out.append("artist ");
    let alen = m.artist.as_str().unicode_len();
    append_dec(&mut out, alen as u64);
    out.append(" ");
    out.append(m.artist.as_str());
    out.append("\n");
    out.append("length ");
    append_signed(&mut out, m.length);
    out.append("\n");
    out.append("position ");
    append_signed(&mut out, m.position);
    out.append("\n");
    out.append("timestamp ");
    append_dec(&mut out, m.timestamp);
    out.append("\n");
    proof {
        assert(out@ =~= encode_model(m@));
    }
    out
}

/// Deserializes the cache text; fails on anything but the exact canonical
/// form of one record.
#[verifier::rlimit(60)]
pub fn parse_metadata(s: &str) -> (r: Result<Metadata, CorruptError>)
    ensures
        match r {
            Ok(m) => parse_model(s@) == Some(m@),
            Err(_) => parse_model(s@) is None,
        },
{
    let slen = s.unicode_len();
    let i1 = match expect_lit(s, 0, "title ") {
        Some(j) => j,
        None => {
            return Err(CorruptError);
        },
    };
    let tlen = match scan_dec(s, i1) {
        Some(v) => v,
        None => {
            return Err(CorruptError);
        },
    };
    let i2 = match expect_lit(s, i1 + DEC_WIDTH, " ") {
        Some(j) => j,
        None => {
            return Err(CorruptError);
        },
    };
    let title = match take_chars(s, i2, tlen) {
        Some(t) => t,
        None => {
            return Err(CorruptError);
        },
    };
    let tl = tlen as usize;
    proof {
        assert(tl as int == tlen as int);
    }
    let i3 = match expect_lit(s, i2 + tl, "\n") {
        Some(j) => j,
        None => {
            return Err(CorruptError);
        },
    };
    let i4 = match expect_lit(s, i3, "artist ") {
        Some(j) => j,
        None => {
            return Err(CorruptError);
        },
    };
    let alen = match scan_dec(s, i4) {
        Some(v) => v,
        None => {
            return Err(CorruptError);
        },
    };
    let i5 = match expect_lit(s, i4 + DEC_WIDTH, " ") {
        Some(j) => j,
        None => {
            return Err(CorruptError);
        },
    };
    let artist = match take_chars(s, i5, alen) {
        Some(t) => t,
        None => {
            return Err(CorruptError);
        },
    };
    let al = alen as usize;
    proof {
        assert(al as int == alen as int);
    }
    let i6 = match expect_lit(s, i5 + al, "\n") {
        Some(j) => j,
        None => {
            return Err(CorruptError);
        },
    };
    let i7 = match expect_lit(s, i6, "length ") {
        Some(j) => j,
        None => {
            return Err(CorruptError);
        },
    };
    let length = match scan_signed(s, i7) {
        Some(v) => v,
        None => {
            return Err(CorruptError);
        },
    };
    let i8 = match expect_lit(s, i7 + 1 + DEC_WIDTH, "\n") {
        Some(j) => j,
        None => {
            return Err(CorruptError);
        },
    };
    let i9 = match expect_lit(s, i8, "position ") {
        Some(j) => j,
        None => {
            return Err(CorruptError);
        },
    };
    let position = match scan_signed(s, i9) {
        Some(v) => v,
        None => {
            return Err(CorruptError);
        },
    };
    let i10 = match expect_lit(s, i9 + 1 + DEC_WIDTH, "\n") {
        Some(j) => j,
        None => {
            return Err(CorruptError);
        },
    };
    let i11 = match expect_lit(s, i10, "timestamp ") {
        Some(j) => j,
        None => {
            return Err(CorruptError);
        },
    };
    let timestamp = match scan_dec(s, i11) {
        Some(v) => v,
        None => {
            return Err(CorruptError);
        },
    };
    let i12 = match expect_lit(s, i11 + DEC_WIDTH, "\n") {
        Some(j) => j,
        None => {
            return Err(CorruptError);
        },
    };
    if i12 != slen {
        return Err(CorruptError);
    }
    let m = Metadata {
        title: String::from_str(title),
        artist: String::from_str(artist),
        length,
        position,
        timestamp,
    };
    proof {
        assert(parse_model(s@) == Some(m@));
    }
    Ok(m)
}

/// Round trip of the cache record: parsing what was encoded gives back the
/// same record. This is the guarantee behind the single-slot cache file —
/// a read that follows a write (with no concurrent writer) returns a record
/// equal in every field.
#[verifier::rlimit(100)]
pub proof fn lemma_encode_parse(mm: MetaModel)
    requires
        valid_model(mm),
    ensures
        parse_model(encode_model(mm)) == Some(mm),
{
    reveal_strlit("title ");
    reveal_strlit("artist ");
    reveal_strlit("length ");
    reveal_strlit("position ");
    reveal_strlit("timestamp ");
    reveal_strlit(" ");
    reveal_strlit("\n");
    reveal_strlit("+");
    reveal_strlit("-");
    lemma_pow10_width();
    let s = encode_model(mm);
    let t = mm.title.len() as int;
    let a = mm.artist.len() as int;
    lemma_dec_digits_props(mm.title.len(), DEC_WIDTH as nat);
    lemma_dec_digits_props(mm.artist.len(), DEC_WIDTH as nat);
    lemma_dec_digits_props(mag(mm.length), DEC_WIDTH as nat);
    lemma_dec_digits_props(mag(mm.position), DEC_WIDTH as nat);
    lemma_dec_digits_props(mm.timestamp as nat, DEC_WIDTH as nat);
    assert(s.len() == 148 + t + a);

    assert(s.subrange(0, 6) =~= "title "@);
    assert(spec_expect(s, 0, "title "@) == Some(6int));
    assert(s.subrange(6, 26) =~= dec_digits(mm.title.len(), DEC_WIDTH as nat));
    assert(spec_scan_dec(s, 6) == Some((mm.title.len() as u64)));
    assert(s.subrange(26, 27) =~= " "@);
    assert(spec_expect(s, 26, " "@) == Some(27int));
    assert(s.subrange(27, 27 + t) =~= mm.title);
    assert(spec_take(s, 27, t) == Some(mm.title));
    assert(s.subrange(27 + t, 28 + t) =~= "\n"@);
    assert(spec_expect(s, 27 + t, "\n"@) == Some(28 + t as int));

    assert(s.subrange(28 + t, 35 + t) =~= "artist "@);
    assert(spec_expect(s, 28 + t, "artist "@) == Some(35 + t as int));
    assert(s.subrange(35 + t, 55 + t) =~= dec_digits(mm.artist.len(), DEC_WIDTH as nat));
    assert(spec_scan_dec(s, 35 + t) == Some((mm.artist.len() as u64)));
    assert(s.subrange(55 + t, 56 + t) =~= " "@);
    assert(spec_expect(s, 55 + t, " "@) == Some(56 + t as int));
    assert(s.subrange(56 + t, 56 + t + a) =~= mm.artist);
    assert(spec_take(s, 56 + t, a) == Some(mm.artist));
    assert(s.subrange(56 + t + a, 57 + t + a) =~= "\n"@);
    assert(spec_expect(s, 56 + t + a, "\n"@) == Some(57 + t + a as int));

    assert(s.subrange(57 + t + a, 64 + t + a) =~= "length "@);
    assert(spec_expect(s, 57 + t + a, "length "@) == Some(64 + t + a as int));
    assert(s.subrange(64 + t + a, 65 + t + a) =~= sign_seq(mm.length));
    assert(s[64 + t + a] == sign_seq(mm.length)[0]);
    assert(s.subrange(65 + t + a, 85 + t + a) =~= dec_digits(mag(mm.length), DEC_WIDTH as nat));
    assert(spec_scan_dec(s, 65 + t + a) == Some((mag(mm.length) as u64)));
    assert(spec_scan_signed(s, 64 + t + a) matches Some(v) && v as int == mm.length);
    assert(s.subrange(85 + t + a, 86 + t + a) =~= "\n"@);
    assert(spec_expect(s, 85 + t + a, "\n"@) == Some(86 + t + a as int));

    assert(s.subrange(86 + t + a, 95 + t + a) =~= "position "@);
    assert(spec_expect(s, 86 + t + a, "position "@) == Some(95 + t + a as int));
    assert(s.subrange(95 + t + a, 96 + t + a) =~= sign_seq(mm.position));
    assert(s[95 + t + a] == sign_seq(mm.position)[0]);
    assert(s.subrange(96 + t + a, 116 + t + a) =~= dec_digits(mag(mm.position), DEC_WIDTH as nat));
    assert(spec_scan_dec(s, 96 + t + a) == Some((mag(mm.position) as u64)));
    assert(spec_scan_signed(s, 95 + t + a) matches Some(v) && v as int == mm.position);
    assert(s.subrange(116 + t + a, 117 + t + a) =~= "\n"@);
    assert(spec_expect(s, 116 + t + a, "\n"@) == Some(117 + t + a as int));

    assert(s.subrange(117 + t + a, 127 + t + a) =~= "timestamp "@);
    assert(spec_expect(s, 117 + t + a, "timestamp "@) == Some(127 + t + a as int));
    assert(s.subrange(127 + t + a, 147 + t + a) =~= dec_digits(mm.timestamp as nat, DEC_WIDTH as nat));
    assert(spec_scan_dec(s, 127 + t + a) == Some((mm.timestamp as u64)));
    assert(s.subrange(147 + t + a, 148 + t + a) =~= "\n"@);
    assert(spec_expect(s, 147 + t + a, "\n"@) == Some(148 + t + a as int));

    assert(parse_model(s) == Some(mm));
}

} // verus!
