//! Arithmetic and comparison on the payloads of values: checked integer
//! arithmetic, the order of floats read from their bits, and the order of
//! texts.

use vstd::prelude::*;
use vstd::string::StringSliceAdditionalSpecFns;

verus! {

/// Whether an integer fits the machine's integer values.
pub open spec fn fits(v: int) -> bool {
    i64::MIN <= v <= i64::MAX
}

/// `v` as an integer value where it fits one.
pub open spec fn checked(v: int) -> Option<i64> {
    if fits(v) {
        Some(v as i64)
    } else {
        None
    }
}

/// The quotient rounded toward zero; the divisor is not zero.
pub open spec fn quotient(a: int, b: int) -> int {
    let magnitude = (if a < 0 {
        -a
    } else {
        a
    }) / (if b < 0 {
        -b
    } else {
        b
    });
    if (a < 0) == (b < 0) {
        magnitude
    } else {
        -magnitude
    }
}

/// The quotient of two integer values, where the divisor is not zero and
/// the quotient fits.
pub open spec fn checked_quotient(a: i64, b: i64) -> Option<i64> {
    if b == 0 {
        None
    } else {
        checked(quotient(a as int, b as int))
    }
}

/// The sum of two integer values, where it fits.
pub fn int_add(a: i64, b: i64) -> (r: Option<i64>)
    ensures
        r == checked(a + b),
{
    a.checked_add(b)
}

/// The difference of two integer values, where it fits.
pub fn int_sub(a: i64, b: i64) -> (r: Option<i64>)
    ensures
        r == checked(a - b),
{
    a.checked_sub(b)
}

/// The product of two integer values, where it fits.
pub fn int_mul(a: i64, b: i64) -> (r: Option<i64>)
    ensures
        r == checked(a * b),
{
    a.checked_mul(b)
}

/// The quotient of two integer values, rounded toward zero, where the
/// divisor is not zero and the quotient fits.
pub fn int_div(a: i64, b: i64) -> (r: Option<i64>)
    ensures
        r == checked_quotient(a, b),
{
    let r = a.checked_div(b);
    proof {
        if b != 0 {
            let x = a as int;
            let d = b as int;
            assert(x * -1 == -x) by (nonlinear_arith);
            assert(d * -1 == -d) by (nonlinear_arith);
            let q1 = (x * -1) / d;
            let q2 = x / (d * -1);
            assert(q1 * -1 == -q1) by (nonlinear_arith);
            assert(q2 * -1 == -q2) by (nonlinear_arith);
            assert(0int / d == 0);
            assert(0int / (-d) == 0);
        }
    }
    r
}

/// The negation of an integer value, where it fits.
pub fn int_neg(a: i64) -> (r: Option<i64>)
    ensures
        r == checked(-a),
{
    if a == i64::MIN {
        None
    } else {
        Some(-a)
    }
}

/// The sign bit of a float.
pub const FLOAT_SIGN: u64 = 0x8000_0000_0000_0000;

/// The bits of a float below its sign bit.
pub const FLOAT_MAGNITUDE: u64 = 0x7FFF_FFFF_FFFF_FFFF;

/// The magnitude bits of the infinities; a larger magnitude is no number.
pub const FLOAT_INFINITY: u64 = 0x7FF0_0000_0000_0000;

/// Whether the bits are those of a float that is no number.
pub open spec fn float_is_nan(bits: u64) -> bool {
    (bits & FLOAT_MAGNITUDE) > FLOAT_INFINITY
}

/// An integer that orders the floats that are numbers as their values
/// order them: the magnitude bits, negated under a set sign bit. The two
/// zeros share the key zero.
pub open spec fn float_key(bits: u64) -> int {
    if bits & FLOAT_SIGN != 0 {
        -((bits & FLOAT_MAGNITUDE) as int)
    } else {
        (bits & FLOAT_MAGNITUDE) as int
    }
}

/// Equality of two floats by their bits.
pub open spec fn float_equal(a: u64, b: u64) -> bool {
    !float_is_nan(a) && !float_is_nan(b) && float_key(a) == float_key(b)
}

/// Whether the float `a` is below the float `b`, by their bits.
pub open spec fn float_less(a: u64, b: u64) -> bool {
    !float_is_nan(a) && !float_is_nan(b) && float_key(a) < float_key(b)
}

/// The negation of a float, by its bits.
pub open spec fn float_negated(bits: u64) -> u64 {
    bits ^ FLOAT_SIGN
}

/// Whether two floats, given by their bits, are equal: neither is not a
/// number, and they are the same number, the two zeros being one.
pub fn float_eq(a: u64, b: u64) -> (r: bool)
    ensures
        r == float_equal(a, b),
{
    let ma = a & FLOAT_MAGNITUDE;
    let mb = b & FLOAT_MAGNITUDE;
    if ma > FLOAT_INFINITY || mb > FLOAT_INFINITY {
        return false;
    }
    if ma == 0 && mb == 0 {
        return true;
    }
    ma == mb && (a & FLOAT_SIGN != 0) == (b & FLOAT_SIGN != 0)
}

/// Whether the float of bits `a` is below the float of bits `b`.
pub fn float_lt(a: u64, b: u64) -> (r: bool)
    ensures
        r == float_less(a, b),
{
    let ma = a & FLOAT_MAGNITUDE;
    let mb = b & FLOAT_MAGNITUDE;
    if ma > FLOAT_INFINITY || mb > FLOAT_INFINITY {
        return false;
    }
    let a_negative = a & FLOAT_SIGN != 0;
    let b_negative = b & FLOAT_SIGN != 0;
    if a_negative && b_negative {
        ma > mb
    } else if a_negative {
        ma != 0 || mb != 0
    } else if b_negative {
        false
    } else {
        ma < mb
    }
}

/// The bits of the negation of a float: the sign bit flipped.
pub fn float_neg(bits: u64) -> (r: u64)
    ensures
        r == float_negated(bits),
{
    bits ^ FLOAT_SIGN
}

/// Whether the bytes `a` come before the bytes `b` in lexicographic order:
/// at the first place where they differ `a` holds the smaller byte, or `a`
/// ends there and `b` goes on.
pub open spec fn bytes_less(a: Seq<u8>, b: Seq<u8>) -> bool {
    exists|k: int| #[trigger] is_first_difference(a, b, k)
}

/// Whether `a` and `b` agree before the place `k`, and `a` ends there or
/// holds the smaller byte, while `b` goes on.
pub open spec fn is_first_difference(a: Seq<u8>, b: Seq<u8>, k: int) -> bool {
    &&& 0 <= k <= a.len()
    &&& k < b.len()
    &&& a.subrange(0, k) == b.subrange(0, k)
    &&& (k == a.len() || a[k] < b[k])
}

/// Whether the text `a` comes before the text `b`: the order of their
/// bytes in UTF-8.
pub open spec fn text_less(a: Seq<char>, b: Seq<char>) -> bool {
    bytes_less(vstd::utf8::encode_utf8(a), vstd::utf8::encode_utf8(b))
}

/// Whether the text `a` comes before the text `b`.
pub fn str_less(a: &str, b: &str) -> (r: bool)
    ensures
        r == text_less(a@, b@),
{
    let x = a.as_bytes();
    let y = b.as_bytes();
    let mut i: usize = 0;
    while i < x.len() && i < y.len()
        invariant
            i <= x.len(),
            i <= y.len(),
            x@.subrange(0, i as int) == y@.subrange(0, i as int),
            x@ == a.spec_bytes(),
            y@ == b.spec_bytes(),
        decreases x.len() - i,
    {
        if x[i] != y[i] {
            let r = x[i] < y[i];
            proof {
                lemma_first_difference(x@, y@, i as int);
            }
            return r;
        }
        proof {
            assert(x@.subrange(0, i + 1) =~= x@.subrange(0, i as int).push(x@[i as int]));
            assert(y@.subrange(0, i + 1) =~= y@.subrange(0, i as int).push(y@[i as int]));
        }
        i += 1;
    }
    proof {
        lemma_common_prefix(x@, y@, i as int);
    }
    i < y.len()
}

/// Where two byte strings agree before `at` and differ there, the bytes at
/// `at` decide their order.
pub proof fn lemma_first_difference(a: Seq<u8>, b: Seq<u8>, at: int)
    requires
        0 <= at < a.len(),
        at < b.len(),
        a.subrange(0, at) == b.subrange(0, at),
        a[at] != b[at],
    ensures
        bytes_less(a, b) == (a[at] < b[at]),
{
    if bytes_less(a, b) {
        let k = choose|k: int| #[trigger] is_first_difference(a, b, k);
        if k > at {
            assert(a.subrange(0, k)[at] == a[at]);
            assert(b.subrange(0, k)[at] == b[at]);
        } else if k < at {
            assert(a.subrange(0, at)[k] == a[k]);
            assert(b.subrange(0, at)[k] == b[k]);
        }
        assert(a[at] < b[at]);
    }
    if a[at] < b[at] {
        assert(is_first_difference(a, b, at));
    }
}

/// Where one of two byte strings ends at `at` and they agree before it,
/// the first is below the second if and only if the second goes on.
pub proof fn lemma_common_prefix(a: Seq<u8>, b: Seq<u8>, at: int)
    requires
        0 <= at <= a.len(),
        at <= b.len(),
        at == a.len() || at == b.len(),
        a.subrange(0, at) == b.subrange(0, at),
    ensures
        bytes_less(a, b) == (at < b.len()),
{
    if bytes_less(a, b) {
        let k = choose|k: int| #[trigger] is_first_difference(a, b, k);
        if k < at {
            assert(a.subrange(0, at)[k] == a[k]);
            assert(b.subrange(0, at)[k] == b[k]);
        }
        assert(at < b.len());
    }
    if at < b.len() {
        assert(is_first_difference(a, b, at));
    }
}

} // verus!
