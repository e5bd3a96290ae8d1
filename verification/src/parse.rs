//! Parsing a command-line parameter as a positive (non-zero, non-negative)
//! 32-bit integer.

use vstd::prelude::*;
use vstd::string::StringSliceAdditionalSpecFns;

verus! {

/// Errors converting a string to a positive (non-zero, non-negative) integer.
#[derive(Clone, Copy, Debug, PartialEq, Eq, Structural)]
pub enum PosIntError {
    /// The string is not a decimal numeral that fits an unsigned 32-bit
    /// integer.
    ParseError,
    /// The integer is zero.
    ZeroError,
}

impl PosIntError {
    /// What `message` returns for each error.
    pub open spec fn spec_message(&self) -> Seq<char> {
        match self {
            PosIntError::ParseError => "invalid digit found in string"@,
            PosIntError::ZeroError => "Integer cannot be zero"@,
        }
    }

    /// A human-readable description of this error.
    pub fn message(&self) -> (r: String)
        ensures
            r@ == self.spec_message(),
    {
        match self {
            PosIntError::ParseError => "invalid digit found in string".to_owned(),
            PosIntError::ZeroError => "Integer cannot be zero".to_owned(),
        }
    }
}

/// Whether the byte is an ASCII decimal digit, `'0'` through `'9'`.
pub open spec fn is_digit_byte(b: u8) -> bool {
    48 <= b <= 57
}

/// Whether every byte of the sequence is an ASCII decimal digit.
pub open spec fn all_digits(bs: Seq<u8>) -> bool {
    forall|i: int| 0 <= i < bs.len() ==> is_digit_byte(#[trigger] bs[i])
}

/// The value of a sequence of ASCII digit bytes read as a decimal numeral;
/// the empty sequence reads as zero.
pub open spec fn digits_value(bs: Seq<u8>) -> int
    decreases bs.len(),
{
    if bs.len() == 0 {
        0
    } else {
        digits_value(bs.drop_last()) * 10 + (bs.last() - 48)
    }
}

/// The digits of a decimal numeral: one optional leading `'+'` sign (byte
/// 43) is dropped, as `u32::from_str` drops it.
pub open spec fn numeral_digits(bs: Seq<u8>) -> Seq<u8> {
    if bs.len() > 0 && bs[0] == 43 {
        bs.subrange(1, bs.len() as int)
    } else {
        bs
    }
}

/// Whether the bytes spell a decimal numeral whose value fits an unsigned
/// 32-bit integer: after the optional sign, at least one byte, every byte a
/// digit, and the value at most `u32::MAX`.
pub open spec fn is_u32_numeral(bs: Seq<u8>) -> bool {
    &&& numeral_digits(bs).len() > 0
    &&& all_digits(numeral_digits(bs))
    &&& digits_value(numeral_digits(bs)) <= u32::MAX
}

/// A sequence of digit bytes reads as a non-negative value.
proof fn lemma_digits_value_nonneg(bs: Seq<u8>)
    requires
        all_digits(bs),
    ensures
        digits_value(bs) >= 0,
    decreases bs.len(),
{
    if bs.len() > 0 {
        lemma_digits_value_nonneg(bs.drop_last());
    }
}

/// Reading one more digit multiplies the prefix's value by ten and adds the
/// digit.
proof fn lemma_digits_value_step(bs: Seq<u8>, i: int)
    requires
        0 <= i < bs.len(),
    ensures
        digits_value(bs.take(i + 1)) == digits_value(bs.take(i)) * 10 + (bs[i] - 48),
{
    assert(bs.take(i + 1).drop_last() =~= bs.take(i));
    assert(bs.take(i + 1).last() == bs[i]);
}

/// A prefix of a digit sequence never reads as more than the whole: later
/// digits only grow the value.
proof fn lemma_digits_value_prefix_le(bs: Seq<u8>, i: int)
    requires
        all_digits(bs),
        0 <= i <= bs.len(),
    ensures
        digits_value(bs.take(i)) <= digits_value(bs),
    decreases bs.len() - i,
{
    if i == bs.len() {
        assert(bs.take(i) =~= bs);
    } else {
        lemma_digits_value_step(bs, i);
        assert(all_digits(bs.take(i))) by {
            assert(forall|k: int|
                0 <= k < i ==> #[trigger] bs.take(i)[k] == bs[k]);
        }
        lemma_digits_value_nonneg(bs.take(i));
        lemma_digits_value_prefix_le(bs, i + 1);
    }
}

/// Parses a string as a positive (non-negative, non-zero) 32-bit integer:
/// an optional leading `'+'` followed by decimal digits. Returns
/// `ParseError` when the string is not such a numeral or its value exceeds
/// `u32::MAX`, and `ZeroError` when the value is zero.
pub fn parse_positive_int(s: &str) -> (r: Result<u32, PosIntError>)
    ensures
        ({
            let bs = s.spec_bytes();
            match r {
                Ok(v) => is_u32_numeral(bs) && v == digits_value(numeral_digits(bs)) && v > 0,
                Err(PosIntError::ZeroError) => is_u32_numeral(bs) && digits_value(
                    numeral_digits(bs),
                ) == 0,
                Err(PosIntError::ParseError) => !is_u32_numeral(bs),
            }
        }),
{
    let bytes = s.as_bytes();
    let n = bytes.len();
    let start: usize = if n > 0 && bytes[0] == 43 {
        1
    } else {
        0
    };
    let ghost digits = numeral_digits(s.spec_bytes());
    proof {
        if !(n > 0 && bytes@[0] == 43) {
            assert(digits =~= bytes@.subrange(start as int, n as int));
        }
    }
    if n == start {
        return Err(PosIntError::ParseError);
    }
    let mut acc: u32 = 0;
    let mut i: usize = start;
    while i < n
        invariant
            start <= i <= n,
            start < n,
            start <= 1,
            n == bytes@.len(),
            bytes@ == s.spec_bytes(),
            digits == numeral_digits(s.spec_bytes()),
            digits =~= bytes@.subrange(start as int, n as int),
            all_digits(digits.take(i - start)),
            acc == digits_value(digits.take(i - start)),
        decreases n - i,
    {
        let b = bytes[i];
        if b < 48 || b > 57 {
            proof {
                assert(digits[i - start] == b);
            }
            return Err(PosIntError::ParseError);
        }
        let d = (b - 48) as u32;
        if acc > (u32::MAX - d) / 10 {
            proof {
                let k = i - start;
                lemma_digits_value_step(digits, k);
                assert(all_digits(digits.take(k + 1))) by {
                    assert(forall|q: int|
                        0 <= q < k + 1 ==> #[trigger] digits.take(k + 1)[q] == digits[q]);
                }
                vstd::arithmetic::div_mod::lemma_fundamental_div_mod(
                    u32::MAX - d,
                    10,
                );
                vstd::arithmetic::div_mod::lemma_mod_division_less_than_divisor(
                    u32::MAX - d,
                    10,
                );
                assert(digits_value(digits.take(k + 1)) > u32::MAX);
                if all_digits(digits) {
                    lemma_digits_value_prefix_le(digits, k + 1);
                }
            }
            return Err(PosIntError::ParseError);
        }
        proof {
            let k = i - start;
            lemma_digits_value_step(digits, k);
            vstd::arithmetic::div_mod::lemma_fundamental_div_mod(u32::MAX - d, 10);
            vstd::arithmetic::div_mod::lemma_mod_division_less_than_divisor(u32::MAX - d, 10);
            assert(all_digits(digits.take(k + 1))) by {
                assert(forall|q: int|
                    0 <= q < k + 1 ==> #[trigger] digits.take(k + 1)[q] == digits[q]);
            }
        }
        acc = acc * 10 + d;
        i = i + 1;
    }
    proof {
        assert(digits.take(n - start) =~= digits);
    }
    if acc == 0 {
        Err(PosIntError::ZeroError)
    } else {
        Ok(acc)
    }
}

} // verus!
