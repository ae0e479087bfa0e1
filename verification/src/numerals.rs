//! Fixed-width decimal numerals for the cache record codec.
//!
//! Every integer field of the cache record is written as exactly
//! [`DEC_WIDTH`] decimal digits, zero-padded on the left. The fixed width
//! keeps the format canonical (one sequence of digits per value) and makes
//! the encode/parse round trip provable.

use vstd::prelude::*;

verus! {

/// Number of digits of every encoded integer. Twenty digits cover the full
/// `u64` range.
pub const DEC_WIDTH: usize = 20;

/// The character for one decimal digit value.
pub open spec fn digit_char(d: int) -> char {
    if d == 0 {
        '0'
    } else if d == 1 {
        '1'
    } else if d == 2 {
        '2'
    } else if d == 3 {
        '3'
    } else if d == 4 {
        '4'
    } else if d == 5 {
        '5'
    } else if d == 6 {
        '6'
    } else if d == 7 {
        '7'
    } else if d == 8 {
        '8'
    } else {
        '9'
    }
}

/// The digit value of a character, or `-1` if it is no decimal digit.
pub open spec fn char_digit(c: char) -> int {
    if c == '0' {
        0
    } else if c == '1' {
        1
    } else if c == '2' {
        2
    } else if c == '3' {
        3
    } else if c == '4' {
        4
    } else if c == '5' {
        5
    } else if c == '6' {
        6
    } else if c == '7' {
        7
    } else if c == '8' {
        8
    } else if c == '9' {
        9
    } else {
        -1
    }
}

pub open spec fn is_digit(c: char) -> bool {
    char_digit(c) >= 0
}

pub open spec fn all_digits(s: Seq<char>) -> bool {
    forall|k: int| 0 <= k < s.len() ==> is_digit(#[trigger] s[k])
}

/// The integer a digit sequence denotes, most significant digit first.
pub open spec fn val_of(s: Seq<char>) -> int
    decreases s.len(),
{
    if s.len() == 0 {
        0
    } else {
        val_of(s.drop_last()) * 10 + char_digit(s.last())
    }
}

pub open spec fn pow10(w: nat) -> nat
    decreases w,
{
    if w == 0 {
        1
    } else {
        10 * pow10((w - 1) as nat)
    }
}

/// The canonical `w`-digit rendering of `n`, zero-padded on the left;
/// truncates if `n` does not fit in `w` digits.
pub open spec fn dec_digits(n: nat, w: nat) -> Seq<char>
    decreases w,
{
    if w == 0 {
        Seq::empty()
    } else {
        dec_digits(n / 10, (w - 1) as nat).push(digit_char(((n % 10) as int)))
    }
}

/// `pow10(DEC_WIDTH)` written out: twenty digits reach beyond `u64::MAX`.
pub proof fn lemma_pow10_width()
    ensures
        pow10(DEC_WIDTH as nat) == 100_000_000_000_000_000_000,
        u64::MAX < pow10(DEC_WIDTH as nat),
{
    reveal_with_fuel(pow10, 21);
}

/// Rendering `n` in `w` digits yields `w` digit characters whose value is
/// `n` again, provided `n` fits.
pub proof fn lemma_dec_digits_props(n: nat, w: nat)
    requires
        n < pow10(w),
    ensures
        dec_digits(n, w).len() == w,
        all_digits(dec_digits(n, w)),
        val_of(dec_digits(n, w)) == n,
    decreases w,
{
    if w == 0 {
        assert(dec_digits(n, 0) =~= Seq::<char>::empty());
    } else {
        assert(n == 10 * (n / 10) + n % 10) by (nonlinear_arith);
        assert(n % 10 < 10 && n / 10 >= 0) by (nonlinear_arith);
        assert(n / 10 < pow10((w - 1) as nat)) by (nonlinear_arith)
            requires
                n < 10 * pow10((w - 1) as nat),
        {}
        lemma_dec_digits_props(n / 10, (w - 1) as nat);
        let prefix = dec_digits(n / 10, (w - 1) as nat);
        let whole = dec_digits(n, w);
        assert(whole == prefix.push(digit_char((n % 10) as int)));
        assert(whole.drop_last() =~= prefix);
        assert(char_digit(digit_char((n % 10) as int)) == n % 10);
    }
}

/// A digit string is non-negative and bounded by `pow10` of its length.
pub proof fn lemma_val_of_bounds(s: Seq<char>)
    requires
        all_digits(s),
    ensures
        0 <= val_of(s) < pow10(s.len() as nat),
    decreases s.len(),
{
    if s.len() == 0 {
    } else {
        lemma_val_of_bounds(s.drop_last());
        let v = val_of(s.drop_last());
        let d = char_digit(s.last());
        assert(0 <= d <= 9);
        assert(0 <= v * 10 + d < 10 * pow10(s.drop_last().len() as nat)) by (nonlinear_arith)
            requires
                0 <= v < pow10(s.drop_last().len() as nat),
                0 <= d <= 9,
        {}
    }
}

/// A digit string is worth at least any of its prefixes.
pub proof fn lemma_val_of_prefix(s: Seq<char>, j: int)
    requires
        all_digits(s),
        0 <= j <= s.len(),
    ensures
        val_of(s.subrange(0, j)) <= val_of(s),
    decreases s.len() - j,
{
    if j == s.len() {
        assert(s.subrange(0, j) =~= s);
    } else {
        let t = s.subrange(0, j + 1);
        assert(t.drop_last() =~= s.subrange(0, j));
        lemma_val_of_bounds(s.subrange(0, j));
        let v = val_of(s.subrange(0, j));
        assert(val_of(t) == v * 10 + char_digit(t.last()));
        assert(v <= v * 10) by (nonlinear_arith)
            requires
                0 <= v,
        {}
        lemma_val_of_prefix(s, j + 1);
    }
}

/// Appends the one-character rendering of digit value `d`.
fn append_digit(out: &mut String, d: u64)
    requires
        d < 10,
    ensures
        final(out)@ == old(out)@ + seq![digit_char(d as int)],
{
    proof {
        reveal_strlit("0");
        reveal_strlit("1");
        reveal_strlit("2");
        reveal_strlit("3");
        reveal_strlit("4");
        reveal_strlit("5");
        reveal_strlit("6");
        reveal_strlit("7");
        reveal_strlit("8");
        reveal_strlit("9");
    }
    let ghost pre = out@;
    if d == 0 {
        out.append("0");
    } else if d == 1 {
        out.append("1");
    } else if d == 2 {
        out.append("2");
    } else if d == 3 {
        out.append("3");
    } else if d == 4 {
        out.append("4");
    } else if d == 5 {
        out.append("5");
    } else if d == 6 {
        out.append("6");
    } else if d == 7 {
        out.append("7");
    } else if d == 8 {
        out.append("8");
    } else {
        out.append("9");
    }
    proof {
        assert(out@ =~= pre + seq![digit_char(d as int)]);
    }
}

/// Appends the canonical [`DEC_WIDTH`]-digit rendering of `n`.
pub fn append_dec(out: &mut String, n: u64)
    ensures
        final(out)@ == old(out)@ + dec_digits(n as nat, DEC_WIDTH as nat),
{
    append_dec_rec(out, n, DEC_WIDTH);
}

fn append_dec_rec(out: &mut String, n: u64, width: usize)
    ensures
        final(out)@ == old(out)@ + dec_digits(n as nat, width as nat),
    decreases width,
{
    if width == 0 {
        proof {
            assert(out@ =~= out@ + dec_digits(n as nat, 0));
        }
        return ;
    }
    let ghost pre = out@;
    append_dec_rec(out, n / 10, width - 1);
    append_digit(out, n % 10);
    proof {
        assert((n as nat) / 10 == (n / 10) as nat);
        assert((n as nat) % 10 == (n % 10) as nat);
        assert(out@ =~= pre + dec_digits(n as nat, width as nat));
    }
}

/// What [`scan_dec`] returns: the value of the [`DEC_WIDTH`] characters at
/// `i`, if they are all digits and the value fits in a `u64`.
pub open spec fn spec_scan_dec(s: Seq<char>, i: int) -> Option<u64> {
    if 0 <= i && i + DEC_WIDTH <= s.len() && all_digits(s.subrange(i, i + DEC_WIDTH)) && val_of(
        s.subrange(i, i + DEC_WIDTH),
    ) <= u64::MAX {
        Some(val_of(s.subrange(i, i + DEC_WIDTH)) as u64)
    } else {
        None
    }
}

/// The digit value of one character, or `None` if it is no digit.
fn char_to_digit(c: char) -> (r: Option<u64>)
    ensures
        match r {
            Some(d) => d < 10 && char_digit(c) == d as int,
            None => !is_digit(c),
        },
{
    if c == '0' {
        Some(0)
    } else if c == '1' {
        Some(1)
    } else if c == '2' {
        Some(2)
    } else if c == '3' {
        Some(3)
    } else if c == '4' {
        Some(4)
    } else if c == '5' {
        Some(5)
    } else if c == '6' {
        Some(6)
    } else if c == '7' {
        Some(7)
    } else if c == '8' {
        Some(8)
    } else if c == '9' {
        Some(9)
    } else {
        None
    }
}

/// Reads the [`DEC_WIDTH`]-digit numeral at character position `i` of `s`.
pub fn scan_dec(s: &str, i: usize) -> (r: Option<u64>)
    ensures
        r == spec_scan_dec(s@, i as int),
{
    let n = s.unicode_len();
    if n < DEC_WIDTH || i > n - DEC_WIDTH {
        return None;
    }
    let ghost digits = s@.subrange(i as int, i as int + DEC_WIDTH);
    let mut val: u64 = 0;
    let mut k: usize = 0;
    while k < DEC_WIDTH
        invariant
            n == s@.len(),
            i + DEC_WIDTH <= n,
            k <= DEC_WIDTH,
            digits == s@.subrange(i as int, i as int + DEC_WIDTH),
            all_digits(digits.subrange(0, k as int)),
            val == val_of(digits.subrange(0, k as int)),
        decreases DEC_WIDTH - k,
    {
        let c = s.get_char(i + k);
        proof {
            assert(digits[k as int] == s@[i as int + k]);
        }
        let d = match char_to_digit(c) {
            Some(d) => d,
            None => {
                proof {
                    assert(!all_digits(digits));
                }
                return None;
            },
        };
        let ghost seen = digits.subrange(0, k as int);
        proof {
            assert(digits.subrange(0, k + 1).drop_last() =~= seen);
            assert(digits.subrange(0, k + 1).last() == c);
        }
        if val > (u64::MAX - d) / 10 {
            proof {
                assert(val_of(digits.subrange(0, k + 1)) > u64::MAX) by (nonlinear_arith)
                    requires
                        val_of(digits.subrange(0, k + 1)) == val * 10 + d,
                        val > (u64::MAX - d) / 10,
                        d < 10,
                {}
                if all_digits(digits) {
                    lemma_val_of_prefix(digits, k + 1);
                }
            }
            return None;
        }
        proof {
            assert(val * 10 + d <= u64::MAX) by (nonlinear_arith)
                requires
                    val <= (u64::MAX - d) / 10,
                    d < 10,
            {}
        }
        val = val * 10 + d;
        k = k + 1;
    }
    proof {
        assert(digits.subrange(0, DEC_WIDTH as int) =~= digits);
    }
    Some(val)
}

} // verus!
