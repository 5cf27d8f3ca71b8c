//! The ledger's answer to a fee query: the fee in minor units, written as a
//! decimal integer and nothing else.

use vstd::prelude::*;
use vstd::string::StringSliceAdditionalSpecFns;

verus! {

/// The largest magnitude that a fee can have: that of the least signed 64-bit
/// integer.
pub const MAX_MAGNITUDE: u64 = 0x8000_0000_0000_0000;

/// Whether `b` is an ASCII decimal digit.
pub open spec fn is_digit(b: u8) -> bool {
    0x30 <= b <= 0x39
}

/// The digit that `b` writes; 0 for any other byte.
pub open spec fn digit_value(b: u8) -> nat {
    if is_digit(b) {
        (b - 0x30) as nat
    } else {
        0
    }
}

/// Whether `s` is made of decimal digits alone.
pub open spec fn all_digits(s: Seq<u8>) -> bool {
    forall|i: int| 0 <= i < s.len() ==> is_digit(#[trigger] s[i])
}

/// The number that the digits of `s` write, most significant first.
pub open spec fn decimal_value(s: Seq<u8>) -> nat
    decreases s.len(),
{
    if s.len() == 0 {
        0
    } else {
        decimal_value(s.drop_last()) * 10 + digit_value(s.last())
    }
}

/// Whether `s` starts with a minus sign.
pub open spec fn is_negative(s: Seq<u8>) -> bool {
    s.len() > 0 && s[0] == 0x2d
}

/// Whether `s` starts with a plus or a minus sign.
pub open spec fn has_sign(s: Seq<u8>) -> bool {
    s.len() > 0 && (s[0] == 0x2b || s[0] == 0x2d)
}

/// `s` without its sign.
pub open spec fn magnitude_digits(s: Seq<u8>) -> Seq<u8> {
    if has_sign(s) {
        s.skip(1)
    } else {
        s
    }
}

/// The integer that `s` writes: an optional sign, then digits.
pub open spec fn signed_value(s: Seq<u8>) -> int {
    if is_negative(s) {
        -(decimal_value(magnitude_digits(s)) as int)
    } else {
        decimal_value(magnitude_digits(s)) as int
    }
}

/// Whether `s` writes a fee: an optional sign, then at least one digit and
/// digits only, of a value that a signed 64-bit integer holds.
pub open spec fn is_winston_amount(s: Seq<u8>) -> bool {
    &&& magnitude_digits(s).len() > 0
    &&& all_digits(magnitude_digits(s))
    &&& i64::MIN <= signed_value(s) <= i64::MAX
}

/// The fee that the text of a response holds, if it holds one.
pub open spec fn winston_amount(s: Seq<u8>) -> Option<i64> {
    if is_winston_amount(s) {
        Some(signed_value(s) as i64)
    } else {
        None
    }
}

/// A number never reads smaller with more digits behind it.
pub proof fn lemma_decimal_value_grows(s: Seq<u8>, n: int)
    requires
        0 <= n <= s.len(),
    ensures
        decimal_value(s.take(n)) <= decimal_value(s),
    decreases s.len() - n,
{
    if n < s.len() {
        assert(s.take(n + 1).drop_last() == s.take(n));
        lemma_decimal_value_grows(s, n + 1);
    } else {
        assert(s.take(n) == s);
    }
}

/// Reads the whole text of a ledger's answer as a fee in minor units.
pub fn parse_base_price_in_winston(text: &str) -> (fee: Option<i64>)
    ensures
        fee == winston_amount(text.spec_bytes()),
{
    parse_winston_bytes(text.as_bytes())
}

/// Reads `body` as a decimal integer: an optional `+` or `-`, then digits.
pub fn parse_winston_bytes(body: &[u8]) -> (fee: Option<i64>)
    ensures
        fee == winston_amount(body@),
{
    let n = body.len();
    if n == 0 {
        return None;
    }
    let negative = body[0] == 0x2d;
    let start: usize = if body[0] == 0x2b || body[0] == 0x2d {
        1
    } else {
        0
    };
    if start == n {
        return None;
    }
    let ghost digits = magnitude_digits(body@);
    let mut acc: u64 = 0;
    let mut i: usize = start;
    assert(digits.take(0) =~= Seq::<u8>::empty());
    while i < n
        invariant
            start <= i <= n,
            n == body@.len(),
            digits == magnitude_digits(body@),
            digits == body@.skip(start as int),
            acc == decimal_value(digits.take(i - start)),
            acc <= MAX_MAGNITUDE,
            all_digits(digits.take(i - start)),
        decreases n - i,
    {
        let b = body[i];
        let ghost k = i - start;
        assert(digits[k] == b);
        assert(digits.take(k + 1).drop_last() == digits.take(k));
        if b < 0x30 || b > 0x39 {
            assert(!all_digits(digits));
            return None;
        }
        let d: u64 = (b - 0x30) as u64;
        if acc > (MAX_MAGNITUDE - d) / 10 {
            proof {
                lemma_decimal_value_grows(digits, k + 1);
            }
            return None;
        }
        acc = acc * 10 + d;
        assert forall|j: int| 0 <= j < digits.take(k + 1).len() implies is_digit(
            #[trigger] digits.take(k + 1)[j],
        ) by {
            if j < k {
                assert(digits.take(k)[j] == digits.take(k + 1)[j]);
            }
        }
        i += 1;
    }
    assert(digits.take(n - start) == digits);
    if negative {
        if acc == MAX_MAGNITUDE {
            Some(i64::MIN)
        } else {
            Some(-(acc as i64))
        }
    } else if acc == MAX_MAGNITUDE {
        None
    } else {
        Some(acc as i64)
    }
}

} // verus!
