//! Decimal rendering and parsing of error codes.
//!
//! After a failed exec the child writes the OS error code in decimal
//! to the error pipe and the parent parses it back; these two
//! directions are verified against one shared arithmetic model.

use vstd::prelude::*;

verus! {

/// The decimal digits of `n`, most significant first, as ASCII bytes.
pub open spec fn dec_digits(n: nat) -> Seq<u8>
    decreases n,
{
    if n < 10 {
        seq![(48 + n) as u8]
    } else {
        dec_digits((n / 10) as nat).push((48 + n % 10) as u8)
    }
}

/// The decimal rendering of an integer: a minus sign for negative
/// values, then the digits of the magnitude.
pub open spec fn decimal_of_int(v: int) -> Seq<u8> {
    if v < 0 {
        seq![45u8] + dec_digits((-v) as nat)
    } else {
        dec_digits(v as nat)
    }
}

/// Every byte is an ASCII digit.
pub open spec fn all_digits(s: Seq<u8>) -> bool {
    forall|i: int| 0 <= i < s.len() ==> 48 <= #[trigger] s[i] <= 57
}

/// The numeric value of a digit string, most significant digit first.
pub open spec fn digits_val(s: Seq<u8>) -> int
    decreases s.len(),
{
    if s.len() == 0 {
        0
    } else {
        digits_val(s.drop_last()) * 10 + (s.last() - 48)
    }
}

/// A byte string that the crate accepts as a signed 32-bit decimal:
/// an optional minus sign, then at least one digit, with the value in
/// the range of `i32`.
pub open spec fn valid_i32_decimal(s: Seq<u8>) -> bool {
    if s.len() > 0 && s[0] == 45 {
        let d = s.skip(1);
        d.len() > 0 && all_digits(d) && digits_val(d) <= 0x8000_0000
    } else {
        s.len() > 0 && all_digits(s) && digits_val(s) <= 0x7fff_ffff
    }
}

/// The signed value that a valid decimal string denotes.
pub open spec fn decimal_val(s: Seq<u8>) -> int {
    if s.len() > 0 && s[0] == 45 {
        -digits_val(s.skip(1))
    } else {
        digits_val(s)
    }
}

proof fn lemma_all_digits_prefix(s: Seq<u8>, k: int)
    requires
        all_digits(s),
        0 <= k <= s.len(),
    ensures
        all_digits(s.take(k)),
{
    assert forall|i: int| 0 <= i < s.take(k).len() implies 48 <= #[trigger] s.take(k)[i] <= 57 by {
        assert(s.take(k)[i] == s[i]);
    }
}

proof fn lemma_digits_val_nonneg(s: Seq<u8>)
    requires
        all_digits(s),
    ensures
        digits_val(s) >= 0,
    decreases s.len(),
{
    if s.len() > 0 {
        lemma_all_digits_prefix(s, s.len() - 1);
        assert(s.drop_last() == s.take(s.len() - 1));
        lemma_digits_val_nonneg(s.drop_last());
    }
}

/// The value of a digit string is at least the value of any prefix.
proof fn lemma_digits_val_prefix(s: Seq<u8>, k: int)
    requires
        all_digits(s),
        0 <= k <= s.len(),
    ensures
        digits_val(s.take(k)) <= digits_val(s),
    decreases s.len() - k,
{
    if k < s.len() {
        lemma_all_digits_prefix(s, k + 1);
        lemma_digits_val_nonneg(s.take(k + 1).drop_last());
        assert(s.take(k + 1).drop_last() == s.take(k));
        lemma_digits_val_prefix(s, k + 1);
    } else {
        assert(s.take(k) == s);
    }
}

/// Append the decimal digits of `n` to `out`.
fn push_digits(n: u64, out: &mut Vec<u8>)
    ensures
        final(out)@ == old(out)@ + dec_digits(n as nat),
    decreases n,
{
    if n < 10 {
        out.push(48 + (n as u8));
        assert(out@ =~= old(out)@ + dec_digits(n as nat));
    } else {
        push_digits(n / 10, out);
        out.push(48 + ((n % 10) as u8));
        assert(out@ =~= old(out)@ + dec_digits(n as nat));
    }
}

/// Render a signed 32-bit integer in decimal.
pub fn format_decimal(v: i32) -> (r: Vec<u8>)
    ensures
        r@ == decimal_of_int(v as int),
{
    let mut out: Vec<u8> = Vec::new();
    if v < 0 {
        out.push(45);
        let m: u64 = (-(v as i64)) as u64;
        push_digits(m, &mut out);
        assert(out@ =~= seq![45u8] + dec_digits(m as nat));
    } else {
        push_digits(v as u64, &mut out);
        assert(out@ =~= dec_digits(v as nat));
    }
    out
}

/// Parse a signed 32-bit decimal.  Returns its value exactly when the
/// bytes form a valid decimal, and nothing otherwise.
pub fn parse_decimal(v: &Vec<u8>) -> (r: Option<i32>)
    ensures
        r is Some <==> valid_i32_decimal(v@),
        r matches Some(x) ==> x as int == decimal_val(v@),
{
    let n: usize = v.len();
    let neg: bool = n > 0 && v[0] == 45;
    let start: usize = if neg { 1 } else { 0 };
    let ghost digits: Seq<u8> = v@.skip(start as int);
    if n == start {
        assert(!valid_i32_decimal(v@));
        return None;
    }
    let mut acc: u64 = 0;
    let mut i: usize = start;
    while i < n
        invariant
            start <= i <= n,
            n == v@.len(),
            start < n,
            digits == v@.skip(start as int),
            neg ==> start == 1 && v@[0] == 45,
            !neg ==> start == 0 && !(v@.len() > 0 && v@[0] == 45),
            all_digits(digits.take(i - start)),
            acc as int == digits_val(digits.take(i - start)),
            acc <= 0x8000_0000,
        decreases n - i,
    {
        let c: u8 = v[i];
        assert(c == digits[i - start]);
        if c < 48 || c > 57 {
            assert(!all_digits(digits));
            return None;
        }
        let d: u64 = (c - 48) as u64;
        acc = acc * 10 + d;
        proof {
            assert(digits.take(i + 1 - start).drop_last() == digits.take(i - start));
            assert(digits.take(i + 1 - start).last() == digits[i - start]);
            assert(all_digits(digits.take(i + 1 - start)));
        }
        i = i + 1;
        if acc > 0x8000_0000 {
            proof {
                if !neg {
                    assert(digits =~= v@);
                }
                if all_digits(digits) {
                    lemma_digits_val_prefix(digits, i - start);
                }
            }
            assert(!valid_i32_decimal(v@));
            return None;
        }
    }
    assert(digits.take(n - start) == digits);
    proof {
        if !neg {
            assert(digits =~= v@);
        }
    }
    if neg {
        assert(valid_i32_decimal(v@));
        Some((-(acc as i64)) as i32)
    } else {
        if acc > 0x7fff_ffff {
            assert(!valid_i32_decimal(v@));
            return None;
        }
        assert(valid_i32_decimal(v@));
        Some(acc as i32)
    }
}

/// Everything `dec_digits` produces is digits, never empty, and its
/// value is the number it was made from.
proof fn lemma_dec_digits_value(n: nat)
    ensures
        all_digits(dec_digits(n)),
        dec_digits(n).len() >= 1,
        digits_val(dec_digits(n)) == n,
    decreases n,
{
    if n < 10 {
        let s = seq![(48 + n) as u8];
        assert(dec_digits(n) == s);
        assert(s.drop_last() =~= Seq::<u8>::empty());
        assert(digits_val(s) == digits_val(s.drop_last()) * 10 + (s.last() - 48));
        assert(s.last() == (48 + n) as u8);
        assert((48 + n) as u8 == 48 + n);
        assert(digits_val(dec_digits(n)) == n);
    } else {
        lemma_dec_digits_value((n / 10) as nat);
        assert(dec_digits(n).drop_last() == dec_digits((n / 10) as nat));
        assert(dec_digits(n).last() == (48 + n % 10) as u8);
        vstd::arithmetic::div_mod::lemma_fundamental_div_mod(n as int, 10);
        assert(digits_val(dec_digits(n)) == (n / 10) * 10 + (n % 10));
    }
}

/// Rendering and parsing agree: the decimal form of any `i32` is a
/// valid decimal whose value is the original number.
pub proof fn lemma_decimal_roundtrip(v: i32)
    ensures
        valid_i32_decimal(decimal_of_int(v as int)),
        decimal_val(decimal_of_int(v as int)) == v as int,
{
    if v < 0 {
        let m: nat = (-(v as int)) as nat;
        lemma_dec_digits_value(m);
        let s = seq![45u8] + dec_digits(m);
        assert(s[0] == 45);
        assert(s.skip(1) == dec_digits(m));
    } else {
        lemma_dec_digits_value(v as nat);
        let s = dec_digits(v as nat);
        assert(s[0] != 45);
    }
}

} // verus!
