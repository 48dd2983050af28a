use vstd::prelude::*;

verus! {

/// The byte `+`.
pub const PLUS: u8 = 43;

/// The byte `-`.
pub const MINUS: u8 = 45;

/// The byte `0`.
pub const ZERO: u8 = 48;

/// The byte `9`.
pub const NINE: u8 = 57;

/// Whether `byte` is an ASCII decimal digit.
pub open spec fn is_digit(byte: u8) -> bool {
    ZERO <= byte <= NINE
}

/// Whether every byte of `bytes` is an ASCII decimal digit.
pub open spec fn all_digits(bytes: Seq<u8>) -> bool {
    forall|i: int| 0 <= i < bytes.len() ==> is_digit(#[trigger] bytes[i])
}

/// What one byte contributes to a number: its digit, or nothing if it is no digit.
pub open spec fn digit_value(byte: u8) -> nat {
    if is_digit(byte) {
        (byte - ZERO) as nat
    } else {
        0
    }
}

/// The number that a run of decimal digits denotes, most significant digit first.
pub open spec fn digits_value(bytes: Seq<u8>) -> nat
    decreases bytes.len(),
{
    if bytes.len() == 0 {
        0
    } else {
        digits_value(bytes.drop_last()) * 10 + digit_value(bytes.last())
    }
}

/// Whether `bytes` starts with a sign.
pub open spec fn has_sign(bytes: Seq<u8>) -> bool {
    bytes.len() > 0 && (bytes[0] == PLUS || bytes[0] == MINUS)
}

/// The digits of `bytes`: everything after the sign, if there is one.
pub open spec fn digits_of(bytes: Seq<u8>) -> Seq<u8> {
    if has_sign(bytes) {
        bytes.subrange(1, bytes.len() as int)
    } else {
        bytes
    }
}

/// The integer that `bytes` denotes if it is an optional sign followed by
/// digits, whatever its size.
pub open spec fn signed_value(bytes: Seq<u8>) -> int {
    if has_sign(bytes) && bytes[0] == MINUS {
        -(digits_value(digits_of(bytes)) as int)
    } else {
        digits_value(digits_of(bytes)) as int
    }
}

/// Reading of `bytes` as a decimal integer of 64 bits: an optional sign, then
/// one or more digits and nothing else, denoting a number in range.
pub open spec fn decimal_i64(bytes: Seq<u8>) -> Option<i64> {
    if digits_of(bytes).len() > 0 && all_digits(digits_of(bytes)) && i64::MIN <= signed_value(bytes)
        <= i64::MAX {
        Some(signed_value(bytes) as i64)
    } else {
        None
    }
}

/// A run of digits denotes at least as much as each of its prefixes.
pub proof fn lemma_prefix_value(bytes: Seq<u8>, k: int)
    requires
        0 <= k <= bytes.len(),
    ensures
        digits_value(bytes.take(k)) <= digits_value(bytes),
    decreases bytes.len(),
{
    if k < bytes.len() {
        lemma_prefix_value(bytes.drop_last(), k);
        assert(bytes.drop_last().take(k) =~= bytes.take(k));
    } else {
        assert(bytes.take(k) =~= bytes);
    }
}

/// Parses `bytes` as a decimal integer of 64 bits.
pub fn parse_i64(bytes: &[u8]) -> (parsed: Option<i64>)
    ensures
        parsed == decimal_i64(bytes@),
{
    let len: usize = bytes.len();
    if len == 0 {
        return None;
    }
    let negative: bool = bytes[0] == MINUS;
    let start: usize = if bytes[0] == PLUS || bytes[0] == MINUS {
        1
    } else {
        0
    };
    let limit: u64 = if negative {
        0x8000_0000_0000_0000
    } else {
        0x7fff_ffff_ffff_ffff
    };
    let ghost digits = digits_of(bytes@);
    let mut magnitude: u64 = 0;
    let mut i: usize = start;
    while i < len
        invariant
            len == bytes@.len(),
            start <= i <= len,
            digits == digits_of(bytes@),
            digits == bytes@.subrange(start as int, len as int),
            negative == (has_sign(bytes@) && bytes@[0] == MINUS),
            limit == if negative {
                -(i64::MIN as int)
            } else {
                i64::MAX as int
            },
            all_digits(digits.take(i - start)),
            magnitude == digits_value(digits.take(i - start)),
            magnitude <= limit,
        decreases len - i,
    {
        let byte: u8 = bytes[i];
        let ghost seen = digits.take(i - start + 1);
        proof {
            assert(seen.drop_last() =~= digits.take(i - start));
            assert(seen.last() == byte);
        }
        if byte < ZERO || byte > NINE {
            assert(!is_digit(digits[i - start]));
            return None;
        }
        let next: u128 = (magnitude as u128) * 10 + ((byte - ZERO) as u128);
        if next > limit as u128 {
            proof {
                lemma_prefix_value(digits, i - start + 1);
            }
            return None;
        }
        magnitude = next as u64;
        i += 1;
        assert(all_digits(seen)) by {
            assert forall|j: int| 0 <= j < seen.len() implies is_digit(#[trigger] seen[j]) by {
                if j < seen.len() - 1 {
                    assert(seen[j] == digits.take(i - start - 1)[j]);
                }
            }
        }
    }
    assert(digits.take(len - start) =~= digits);
    if start == len {
        return None;
    }
    if negative {
        if magnitude == 0x8000_0000_0000_0000 {
            Some(i64::MIN)
        } else {
            Some(-(magnitude as i64))
        }
    } else {
        Some(magnitude as i64)
    }
}

} // verus!
