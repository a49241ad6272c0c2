//! Reading a window handle out of a boundary value.
//!
//! Host runtimes hand handles over either as a native number or as a
//! decimal string (a handle can exceed the safe-integer precision of
//! some host numeric types). The string form is parsed here into the
//! 64-bit signed integer every operation dispatches on; anything
//! malformed or out of range is rejected as an invalid argument.

use vstd::prelude::*;

use vstd::string::StringSliceAdditionalSpecFns;

use crate::error::WmError;

verus! {

/// The byte is an ASCII decimal digit.
pub open spec fn is_ascii_digit(b: u8) -> bool {
    48 <= b <= 57
}

/// The numeric value of an ASCII digit byte.
pub open spec fn digit_value(b: u8) -> int {
    b - 48
}

/// Every byte of `s` is an ASCII decimal digit.
pub open spec fn all_digits(s: Seq<u8>) -> bool {
    forall|i: int| 0 <= i < s.len() ==> is_ascii_digit(#[trigger] s[i])
}

/// The non-negative integer a digit string denotes.
pub open spec fn digits_value(s: Seq<u8>) -> int
    decreases s.len(),
{
    if s.len() == 0 {
        0
    } else {
        digits_value(s.drop_last()) * 10 + digit_value(s.last())
    }
}

/// `s` starts with an ASCII sign byte.
pub open spec fn has_sign(s: Seq<u8>) -> bool {
    s.len() > 0 && (s[0] == 43 || s[0] == 45)
}

/// `s` starts with an ASCII minus.
pub open spec fn is_negative(s: Seq<u8>) -> bool {
    s.len() > 0 && s[0] == 45
}

/// The digits of `s`, the optional sign dropped.
pub open spec fn digits_part(s: Seq<u8>) -> Seq<u8> {
    if has_sign(s) {
        s.drop_first()
    } else {
        s
    }
}

/// `s` is an optional ASCII sign followed by one or more digits.
pub open spec fn well_formed_decimal(s: Seq<u8>) -> bool {
    digits_part(s).len() > 0 && all_digits(digits_part(s))
}

/// The integer a well-formed decimal string denotes.
pub open spec fn decimal_value(s: Seq<u8>) -> int {
    if is_negative(s) {
        -digits_value(digits_part(s))
    } else {
        digits_value(digits_part(s))
    }
}

/// A digit string denotes a non-negative integer.
proof fn lemma_digits_value_nonneg(s: Seq<u8>)
    requires
        all_digits(s),
    ensures
        digits_value(s) >= 0,
    decreases s.len(),
{
    if s.len() > 0 {
        assert(all_digits(s.drop_last()));
        lemma_digits_value_nonneg(s.drop_last());
        assert(digits_value(s.drop_last()) * 10 >= 0) by (nonlinear_arith)
            requires
                digits_value(s.drop_last()) >= 0,
        ;
    }
}

/// Reading more digits never shrinks the denoted value.
proof fn lemma_digits_value_prefix(s: Seq<u8>, m: int)
    requires
        all_digits(s),
        0 <= m <= s.len(),
    ensures
        digits_value(s) >= digits_value(s.subrange(0, m)),
    decreases s.len(),
{
    if m == s.len() {
        assert(s.subrange(0, m) =~= s);
    } else {
        let t = s.drop_last();
        assert(all_digits(t));
        assert(s.subrange(0, m) =~= t.subrange(0, m));
        lemma_digits_value_prefix(t, m);
        lemma_digits_value_nonneg(t);
        assert(digits_value(t) * 10 >= digits_value(t)) by (nonlinear_arith)
            requires
                digits_value(t) >= 0,
        ;
        assert(digits_value(s) == digits_value(t) * 10 + digit_value(s.last()));
    }
}

/// Read a window handle from its decimal string form.
///
/// Accepts an optional ASCII sign followed by one or more decimal
/// digits denoting a value a 64-bit signed integer can hold; anything
/// else is rejected as an invalid argument, exactly as a host-side
/// numeric coercion failure is.
pub fn to_i64(s: &str) -> (r: Result<i64, WmError>)
    ensures
        match r {
            Ok(v) => well_formed_decimal(s.spec_bytes()) && i64::MIN <= decimal_value(
                s.spec_bytes(),
            ) <= i64::MAX && v == decimal_value(s.spec_bytes()),
            Err(e) => e == WmError::InvalidArgument && (!well_formed_decimal(s.spec_bytes())
                || decimal_value(s.spec_bytes()) < i64::MIN || decimal_value(s.spec_bytes())
                > i64::MAX),
        },
{
    let b = s.as_bytes();
    let n = b.len();
    if n == 0 {
        return Err(WmError::InvalidArgument);
    }
    let neg: bool = b[0] == 45;
    let start: usize = if b[0] == 45 || b[0] == 43 {
        1
    } else {
        0
    };
    if start == n {
        assert(digits_part(b@).len() == 0);
        return Err(WmError::InvalidArgument);
    }
    let ghost t = digits_part(b@);
    proof {
        if start == 1 {
            assert(t =~= b@.subrange(1, n as int));
        } else {
            assert(t =~= b@.subrange(0, n as int));
        }
    }
    // Largest magnitude an i64 can hold with this sign.
    let limit: u64 = if neg {
        9223372036854775808
    } else {
        9223372036854775807
    };
    let mut mag: u64 = 0;
    let mut i: usize = start;
    while i < n
        invariant
            b@ == s.spec_bytes(),
            n == b@.len(),
            start <= i <= n,
            start < n,
            start == 0 || start == 1,
            t == digits_part(b@),
            t =~= b@.subrange(start as int, n as int),
            neg == is_negative(b@),
            limit == if neg {
                9223372036854775808u64
            } else {
                9223372036854775807u64
            },
            all_digits(t.subrange(0, i - start)),
            mag == digits_value(t.subrange(0, i - start)),
            mag <= limit,
        decreases n - i,
    {
        let d = b[i];
        proof {
            assert(t[i - start] == b@[i as int]);
        }
        if d < 48 || d > 57 {
            assert(!all_digits(t));
            return Err(WmError::InvalidArgument);
        }
        let dv = (d - 48) as u64;
        let ghost prefix = t.subrange(0, i - start);
        let ghost next_prefix = t.subrange(0, i + 1 - start);
        proof {
            assert(next_prefix.drop_last() =~= prefix);
            assert(next_prefix.last() == t[i - start]);
            vstd::arithmetic::div_mod::lemma_fundamental_div_mod((limit - dv) as int, 10);
        }
        if mag > (limit - dv) / 10 {
            // The digits read so far already exceed the magnitude an
            // i64 of this sign can hold; more digits cannot shrink it.
            proof {
                assert(mag * 10 >= ((limit - dv) / 10 + 1) * 10) by (nonlinear_arith)
                    requires
                        mag >= (limit - dv) / 10 + 1,
                ;
                assert(digits_value(next_prefix) > limit);
                if all_digits(t) {
                    lemma_digits_value_prefix(t, i + 1 - start);
                    assert(digits_value(t) > limit);
                    if neg {
                        assert(decimal_value(b@) < i64::MIN);
                    } else {
                        assert(decimal_value(b@) > i64::MAX);
                    }
                }
            }
            return Err(WmError::InvalidArgument);
        }
        proof {
            assert(mag * 10 <= ((limit - dv) / 10) * 10) by (nonlinear_arith)
                requires
                    mag <= (limit - dv) / 10,
            ;
        }
        mag = mag * 10 + dv;
        proof {
            assert(mag == digits_value(next_prefix));
        }
        i += 1;
    }
    proof {
        assert(t.subrange(0, n - start) =~= t);
        assert(all_digits(t));
        assert(mag == digits_value(t));
        lemma_digits_value_nonneg(t);
    }
    if neg {
        if mag == 9223372036854775808 {
            Ok(i64::MIN)
        } else {
            Ok(-(mag as i64))
        }
    } else {
        Ok(mag as i64)
    }
}

} // verus!
