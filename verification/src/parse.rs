//! Permissive decimal reading of the `user_id` header.
//!
//! A header value is read exactly as `str::parse::<i64>` reads text: an
//! optional `+` or `-` sign, then one or more ASCII digits, and the result
//! must fit an `i64`. Anything else — including bytes that are not UTF-8,
//! which can never form such a literal — degrades to the sentinel `0`.

use vstd::prelude::*;

verus! {

use crate::header_view;

/// An ASCII decimal digit, `'0'` (48) through `'9'` (57).
pub open spec fn is_dec_digit(b: u8) -> bool {
    48 <= b && b <= 57
}

/// Every byte of `s` is an ASCII decimal digit.
pub open spec fn all_dec_digits(s: Seq<u8>) -> bool {
    forall|i: int| 0 <= i < s.len() ==> is_dec_digit(#[trigger] s[i])
}

/// The integer denoted by a sequence of ASCII digits, most significant first.
pub open spec fn digits_value(s: Seq<u8>) -> int
    decreases s.len(),
{
    if s.len() == 0 {
        0
    } else {
        digits_value(s.drop_last()) * 10 + (s.last() - 48)
    }
}

/// Whether `s` starts with an explicit `+` (43) or `-` (45) sign.
pub open spec fn has_sign(s: Seq<u8>) -> bool {
    s.len() > 0 && (s[0] == 43 || s[0] == 45)
}

/// Whether `s` starts with a `-` (45) sign.
pub open spec fn is_negative(s: Seq<u8>) -> bool {
    s.len() > 0 && s[0] == 45
}

/// The digit part of a decimal literal: everything after the optional sign.
pub open spec fn digits_of(s: Seq<u8>) -> Seq<u8> {
    if has_sign(s) {
        s.subrange(1, s.len() as int)
    } else {
        s
    }
}

/// The value of `s` read as a decimal `i64`: an optional sign, then one or
/// more ASCII digits, and the signed value within the `i64` range.
pub open spec fn i64_decimal(s: Seq<u8>) -> Option<int> {
    let digits = digits_of(s);
    if digits.len() > 0 && all_dec_digits(digits) {
        let magnitude = digits_value(digits);
        if is_negative(s) {
            if magnitude <= 0x8000_0000_0000_0000 {
                Some(-magnitude)
            } else {
                None
            }
        } else {
            if magnitude <= 0x7fff_ffff_ffff_ffff {
                Some(magnitude)
            } else {
                None
            }
        }
    } else {
        None
    }
}

/// The `user_id` a request asserts: the header's decimal value, with the
/// sentinel `0` when the header is absent or does not read as an `i64`.
pub open spec fn parsed_user_id(h: Option<Seq<u8>>) -> int {
    match h {
        Some(s) => match i64_decimal(s) {
            Some(v) => v,
            None => 0,
        },
        None => 0,
    }
}

/// A digit string denotes a nonnegative value.
pub proof fn lemma_digits_value_nonneg(s: Seq<u8>)
    requires
        all_dec_digits(s),
    ensures
        digits_value(s) >= 0,
    decreases s.len(),
{
    if s.len() > 0 {
        assert(is_dec_digit(s[s.len() - 1]));
        assert forall|i: int| 0 <= i < s.drop_last().len() implies is_dec_digit(
            #[trigger] s.drop_last()[i],
        ) by {
            assert(s.drop_last()[i] == s[i]);
        }
        lemma_digits_value_nonneg(s.drop_last());
    }
}

/// Reading one more digit multiplies the value by ten and adds the digit.
pub proof fn lemma_digits_value_snoc(s: Seq<u8>, j: int)
    requires
        0 <= j < s.len(),
    ensures
        digits_value(s.take(j + 1)) == digits_value(s.take(j)) * 10 + (s[j] - 48),
{
    assert(s.take(j + 1).drop_last() =~= s.take(j));
    assert(s.take(j + 1).last() == s[j]);
}

/// A prefix of a digit string never denotes more than the whole string.
pub proof fn lemma_digits_value_prefix_le(s: Seq<u8>, j: int)
    requires
        0 <= j <= s.len(),
        all_dec_digits(s),
    ensures
        digits_value(s.take(j)) <= digits_value(s),
    decreases s.len() - j,
{
    if j == s.len() {
        assert(s.take(j) =~= s);
    } else {
        lemma_digits_value_snoc(s, j);
        assert forall|i: int| 0 <= i < s.take(j).len() implies is_dec_digit(
            #[trigger] s.take(j)[i],
        ) by {
            assert(s.take(j)[i] == s[i]);
        }
        lemma_digits_value_nonneg(s.take(j));
        assert(is_dec_digit(s[j]));
        assert(digits_value(s.take(j)) <= digits_value(s.take(j + 1)));
        lemma_digits_value_prefix_le(s, j + 1);
    }
}

/// Reads `v` as a decimal `i64` literal: an optional `+` or `-` sign, then
/// one or more ASCII digits, with the signed value in range; anything else
/// is rejected.
pub fn parse_i64(v: &Vec<u8>) -> (r: Option<i64>)
    ensures
        (r matches Some(x) ==> i64_decimal(v@) == Some(x as int)),
        (r is None ==> i64_decimal(v@) is None),
{
    let n = v.len();
    let mut i: usize = 0;
    let mut neg: bool = false;
    if n > 0 && (v[0] == 43 || v[0] == 45) {
        neg = v[0] == 45;
        i = 1;
    }
    let start: usize = i;
    if i == n {
        proof {
            assert(digits_of(v@).len() == 0);
        }
        return None;
    }
    // The largest magnitude an `i64` can carry, by sign; its split into a
    // quotient by ten and a last digit drives the overflow check below.
    let bound: u64 = if neg {
        9223372036854775808
    } else {
        9223372036854775807
    };
    let q: u64 = 922337203685477580;
    let last: u64 = if neg {
        8
    } else {
        7
    };
    let ghost digits = v@.subrange(start as int, n as int);
    proof {
        assert(digits =~= digits_of(v@));
    }
    let mut acc: u64 = 0;
    while i < n
        invariant
            start <= i <= n,
            n == v@.len(),
            start < n,
            start == (if has_sign(v@) {
                1int
            } else {
                0int
            }),
            neg == is_negative(v@),
            bound == (if neg {
                0x8000_0000_0000_0000u64
            } else {
                0x7fff_ffff_ffff_ffffu64
            }),
            q == 922337203685477580u64,
            bound == q * 10 + last,
            last <= 9,
            digits == digits_of(v@),
            digits == v@.subrange(start as int, n as int),
            all_dec_digits(digits.take(i - start)),
            acc == digits_value(digits.take(i - start)),
            acc <= bound,
        decreases n - i,
    {
        let ghost k = i - start;
        let b = v[i];
        proof {
            assert(digits[k] == v@[i as int]);
        }
        if b < 48 || b > 57 {
            proof {
                assert(!is_dec_digit(digits[k]));
                assert(!all_dec_digits(digits));
            }
            return None;
        }
        let d: u64 = (b - 48) as u64;
        if acc > q || (acc == q && d > last) {
            proof {
                if all_dec_digits(digits) {
                    lemma_digits_value_snoc(digits, k);
                    lemma_digits_value_prefix_le(digits, k + 1);
                    assert(digits_value(digits) > bound);
                }
            }
            return None;
        }
        proof {
            assert(acc * 10 + d <= bound);
            lemma_digits_value_snoc(digits, k);
            assert(digits.take(k + 1) =~= digits.take(k).push(digits[k]));
            assert forall|j: int| 0 <= j < digits.take(k + 1).len() implies is_dec_digit(
                #[trigger] digits.take(k + 1)[j],
            ) by {
                if j < k {
                    assert(digits.take(k + 1)[j] == digits.take(k)[j]);
                }
            }
        }
        acc = acc * 10 + d;
        i = i + 1;
    }
    proof {
        assert(digits.take(i - start) =~= digits);
        if neg {
            lemma_digits_value_nonneg(digits);
        }
    }
    if neg {
        if acc == 9223372036854775808 {
            Some(i64::MIN)
        } else {
            Some(-(acc as i64))
        }
    } else {
        Some(acc as i64)
    }
}

/// Reads the `user_id` header: its decimal value, or the sentinel `0` when
/// the header is absent or does not read as an `i64`.
pub fn parse_user_id(h: &Option<Vec<u8>>) -> (r: i64)
    ensures
        r as int == parsed_user_id(header_view(*h)),
{
    match h {
        Some(v) => match parse_i64(v) {
            Some(x) => x,
            None => 0,
        },
        None => 0,
    }
}

/// Law: a `user_id` header that reads as the decimal integer `n` yields
/// exactly `n`.
pub proof fn lemma_user_id_exact(s: Seq<u8>, n: int)
    requires
        i64_decimal(s) == Some(n),
    ensures
        parsed_user_id(Some(s)) == n,
{
}

/// Law: a `user_id` header that does not read as a decimal integer — and an
/// absent header — yield the sentinel `0`.
pub proof fn lemma_user_id_sentinel(h: Option<Seq<u8>>)
    requires
        (h matches Some(s) ==> i64_decimal(s) is None),
    ensures
        parsed_user_id(h) == 0,
{
}

/// An all-ASCII byte sequence is valid UTF-8.
pub proof fn lemma_ascii_valid_utf8(s: Seq<u8>)
    requires
        forall|i: int| 0 <= i < s.len() ==> #[trigger] s[i] < 128,
    ensures
        vstd::utf8::valid_utf8(s),
{
    assert(s.subrange(0, 0).len() == 0);
    assert(vstd::utf8::partial_valid_utf8(s, 0));
    assert forall|i: int| 0 <= i < s.len() implies #[trigger] vstd::utf8::is_leading_byte_width_1(
        s[i],
    ) by {
        assert(s[i] < 128);
    }
    vstd::utf8::partial_valid_utf8_extend_ascii_block(s, 0, s.len() as int);
    assert(s.subrange(0, s.len() as int) =~= s);
}

/// Law: a `user_id` header whose bytes are not valid UTF-8 can never read as
/// a decimal integer — a decimal literal is pure ASCII — so it too yields the
/// sentinel `0`.
pub proof fn lemma_non_utf8_user_id_sentinel(s: Seq<u8>)
    requires
        !vstd::utf8::valid_utf8(s),
    ensures
        i64_decimal(s) is None,
        parsed_user_id(Some(s)) == 0,
{
    if i64_decimal(s) is Some {
        let digits = digits_of(s);
        assert forall|i: int| 0 <= i < s.len() implies #[trigger] s[i] < 128 by {
            if has_sign(s) {
                if i > 0 {
                    assert(digits[i - 1] == s[i]);
                    assert(is_dec_digit(digits[i - 1]));
                }
            } else {
                assert(digits[i] == s[i]);
                assert(is_dec_digit(digits[i]));
            }
        }
        lemma_ascii_valid_utf8(s);
    }
}

} // verus!
