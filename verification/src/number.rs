//! The order of double precision numbers.
//!
//! A nonnegative double is ordered like its bit pattern: an exponent of eleven bits, biased by
//! 1023, in front of a fraction of 52 bits. The order of a negative double is that of its
//! magnitude, negated.
use vstd::prelude::*;

use crate::value::Number;

verus! {

/// The whole numbers below this limit have room in the fraction of a double.
pub const WHOLE_LIMIT: i64 = 0x10_0000_0000_0000;

/// Two to the power of `e`.
pub open spec fn two_to(e: nat) -> nat
    decreases e,
{
    if e == 0 {
        1
    } else {
        2 * two_to((e - 1) as nat)
    }
}

/// The place of the highest bit of `n`.
pub open spec fn high_bit(n: nat) -> nat
    decreases n,
{
    if n < 2 {
        0
    } else {
        1 + high_bit(n / 2)
    }
}

/// The order of a whole number with at most 53 bits: its highest bit becomes the exponent, the bits
/// below it the fraction.
pub open spec fn order_of_natural(n: nat) -> int {
    if n == 0 {
        0
    } else {
        let e = high_bit(n);
        (1023 + e) * 0x10_0000_0000_0000 + (n - two_to(e)) * two_to((52 - e) as nat)
    }
}

/// The order of a whole number.
pub open spec fn order_of_integer(n: int) -> int {
    if n < 0 {
        -order_of_natural((-n) as nat)
    } else {
        order_of_natural(n as nat)
    }
}

/// A whole number as a value of a control.
pub open spec fn whole_number(n: int) -> Number {
    Number {
        order: order_of_integer(n) as i64,
        integer: Some(n as i64),
        truncated: cut_to_i32(n) as i32,
    }
}

/// A number cut off at the limits of 32 bits.
pub open spec fn cut_to_i32(n: int) -> int {
    if n < i32::MIN {
        i32::MIN as int
    } else if n > i32::MAX {
        i32::MAX as int
    } else {
        n
    }
}

proof fn two_to_add(a: nat, b: nat)
    ensures
        two_to(a + b) == two_to(a) * two_to(b),
    decreases a,
{
    if a > 0 {
        two_to_add((a - 1) as nat, b);
        assert(two_to(a + b) == 2 * two_to((a + b - 1) as nat));
        assert(2 * (two_to((a - 1) as nat) * two_to(b)) == (2 * two_to((a - 1) as nat)) * two_to(b))
            by (nonlinear_arith);
    } else {
        assert(1 * two_to(b) == two_to(b));
    }
}

proof fn high_bit_bounds(n: nat)
    requires
        n > 0,
    ensures
        two_to(high_bit(n)) <= n < 2 * two_to(high_bit(n)),
    decreases n,
{
    if n >= 2 {
        high_bit_bounds(n / 2);
    }
}

proof fn high_bit_small(n: nat, limit: nat)
    requires
        n < two_to(limit),
        limit > 0,
    ensures
        high_bit(n) < limit,
    decreases limit,
{
    if n >= 2 {
        if limit == 1 {
            assert(two_to(1) == 2) by {
                assert(two_to(0) == 1);
            }
        } else {
            high_bit_small(n / 2, (limit - 1) as nat);
        }
    }
}

proof fn two_to_52()
    ensures
        two_to(52) == 0x10_0000_0000_0000,
{
    reveal_with_fuel(two_to, 33);
    assert(two_to(32) == 0x1_0000_0000);
    two_to_add(32, 20);
    assert(two_to(20) == 0x10_0000);
}

/// What the fraction and the exponent make of a number: its bits, moved up to the
/// place of the fraction, behind the exponent of the bit before the highest.
proof fn order_shape(n: nat)
    requires
        0 < n < WHOLE_LIMIT,
    ensures
        high_bit(n) < 52,
        order_of_natural(n) == (1022 + high_bit(n)) * 0x10_0000_0000_0000 + n * two_to(
            (52 - high_bit(n)) as nat,
        ),
        two_to(high_bit(n)) * two_to((52 - high_bit(n)) as nat) == 0x10_0000_0000_0000,
        two_to(high_bit(n)) <= n < 2 * two_to(high_bit(n)),
{
    two_to_52();
    high_bit_small(n, 52);
    high_bit_bounds(n);
    let e = high_bit(n);
    let s = two_to((52 - e) as nat);
    two_to_add(e, (52 - e) as nat);
    assert((n - two_to(e)) * s == n * s - two_to(e) * s) by (nonlinear_arith);
}

proof fn order_steps_up(n: nat)
    requires
        n + 1 < WHOLE_LIMIT,
    ensures
        0 <= order_of_natural(n) < order_of_natural(n + 1) < 0x7ff0_0000_0000_0000,
{
    order_shape(n + 1);
    let f = high_bit(n + 1);
    let t = two_to((52 - f) as nat);
    two_to_positive((52 - f) as nat);
    assert((n + 1) * t < 2 * 0x10_0000_0000_0000) by (nonlinear_arith)
        requires
            n + 1 < 2 * two_to(f),
            two_to(f) * t == 0x10_0000_0000_0000,
            t > 0,
    ;
    assert((n + 1) * t >= 0x10_0000_0000_0000) by (nonlinear_arith)
        requires
            n + 1 >= two_to(f),
            two_to(f) * t == 0x10_0000_0000_0000,
            t > 0,
    ;
    if n > 0 {
        order_shape(n);
        let e = high_bit(n);
        let s = two_to((52 - e) as nat);
        two_to_positive((52 - e) as nat);
        assert(n * s < 2 * 0x10_0000_0000_0000) by (nonlinear_arith)
            requires
                n < 2 * two_to(e),
                two_to(e) * s == 0x10_0000_0000_0000,
                s > 0,
        ;
        assert(n * s >= 0) by (nonlinear_arith)
            requires
                s > 0,
        ;
        high_bit_steps(n);
        if e == f {
            assert((n + 1) * s > n * s) by (nonlinear_arith)
                requires
                    s > 0,
            ;
        } else {
            // The number of bits grows by one, and only the highest bit of the next number is set.
            assert(f == e + 1);
            assert(n * s + s <= 2 * 0x10_0000_0000_0000) by (nonlinear_arith)
                requires
                    n + 1 <= 2 * two_to(e),
                    two_to(e) * s == 0x10_0000_0000_0000,
                    s > 0,
            ;
        }
    }
}

proof fn two_to_positive(e: nat)
    ensures
        two_to(e) > 0,
    decreases e,
{
    if e > 0 {
        two_to_positive((e - 1) as nat);
    }
}

proof fn high_bit_steps(n: nat)
    requires
        n > 0,
    ensures
        high_bit(n + 1) == high_bit(n) || high_bit(n + 1) == high_bit(n) + 1,
    decreases n,
{
    if n >= 2 {
        if n % 2 == 0 {
            assert((n + 1) / 2 == n / 2);
        } else {
            assert((n + 1) / 2 == n / 2 + 1);
            high_bit_steps(n / 2);
        }
    } else {
        assert(high_bit(2) == 1 + high_bit(1));
    }
}

proof fn natural_order_is_kept(a: nat, b: nat)
    requires
        a < b < WHOLE_LIMIT,
    ensures
        0 <= order_of_natural(a) < order_of_natural(b) < 0x7ff0_0000_0000_0000,
    decreases b - a,
{
    order_steps_up((b - 1) as nat);
    if a + 1 < b {
        natural_order_is_kept(a, (b - 1) as nat);
    }
}

/// Whole numbers are ordered as their values are.
pub proof fn order_is_kept(a: int, b: int)
    requires
        -WHOLE_LIMIT < a < WHOLE_LIMIT,
        -WHOLE_LIMIT < b < WHOLE_LIMIT,
    ensures
        a < b <==> whole_number(a).order < whole_number(b).order,
        a == b <==> whole_number(a).order == whole_number(b).order,
{
    integer_order_is_kept(a, b);
    integer_order_is_kept(b, a);
    integer_order_in_range(a);
    integer_order_in_range(b);
}

proof fn integer_order_in_range(a: int)
    requires
        -WHOLE_LIMIT < a < WHOLE_LIMIT,
    ensures
        i64::MIN < order_of_integer(a) < i64::MAX,
{
    if a > 0 {
        natural_order_is_kept(0, a as nat);
    } else if a < 0 {
        natural_order_is_kept(0, (-a) as nat);
    }
}

proof fn integer_order_is_kept(a: int, b: int)
    requires
        -WHOLE_LIMIT < a < WHOLE_LIMIT,
        -WHOLE_LIMIT < b < WHOLE_LIMIT,
    ensures
        a < b ==> order_of_integer(a) < order_of_integer(b),
{
    if a < b {
        if a >= 0 {
            natural_order_is_kept(a as nat, b as nat);
        } else if b <= 0 {
            natural_order_is_kept((-b) as nat, (-a) as nat);
        } else {
            natural_order_is_kept(0, (-a) as nat);
            natural_order_is_kept(0, b as nat);
        }
    }
}

impl Number {
    /// A whole number of 32 bits.
    pub fn from_i32(n: i32) -> (r: Number)
        ensures
            r == whole_number(n as int),
    {
        Number::from_i64(n as i64)
    }

    /// A whole number.
    pub fn from_i64(n: i64) -> (r: Number)
        requires
            -WHOLE_LIMIT < n < WHOLE_LIMIT,
        ensures
            r == whole_number(n as int),
    {
        let magnitude: i64 = if n < 0 {
            -n
        } else {
            n
        };
        let order: i64 = if magnitude == 0 {
            0
        } else {
            natural_order(magnitude as u64)
        };
        Number {
            order: if n < 0 {
                -order
            } else {
                order
            },
            integer: Some(n),
            truncated: if n < i32::MIN as i64 {
                i32::MIN
            } else if n > i32::MAX as i64 {
                i32::MAX
            } else {
                n as i32
            },
        }
    }
}

fn natural_order(n: u64) -> (order: i64)
    requires
        0 < n < WHOLE_LIMIT,
    ensures
        order == order_of_natural(n as nat),
        0 <= order < 0x7ff0_0000_0000_0000,
{
    proof {
        natural_order_is_kept(0, n as nat);
        order_shape(n as nat);
        two_to_52();
    }
    let mut shifted: u64 = n;
    let mut exponent: u64 = 1022 + 52;
    let ghost top = high_bit(n as nat);
    let ghost mut steps: nat = 0;
    assert(n * two_to(0) == n) by {
        assert(two_to(0) == 1);
    }
    while shifted < 0x10_0000_0000_0000
        invariant
            0 < n < WHOLE_LIMIT,
            top == high_bit(n as nat),
            top < 52,
            steps <= 52 - top,
            steps < 52 - top ==> shifted < 0x10_0000_0000_0000,
            exponent + steps == 1074,
            shifted == n * two_to(steps),
            n >= two_to(top),
            n < 2 * two_to(top),
            two_to(top) * two_to((52 - top) as nat) == 0x10_0000_0000_0000,
            two_to(52) == 0x10_0000_0000_0000,
        ensures
            steps == 52 - top,
            shifted == n * two_to((52 - top) as nat),
            exponent == 1022 + top,
        decreases 52 - top - steps,
    {
        proof {
            if steps == 52 - top {
                two_to_positive((52 - top) as nat);
                assert(n * two_to(steps) >= 0x10_0000_0000_0000) by (nonlinear_arith)
                    requires
                        n >= two_to(top),
                        two_to(top) * two_to(steps) == 0x10_0000_0000_0000,
                ;
                assert(false);
            }
            two_to_positive(steps);
            assert(n * two_to(steps) > 0) by (nonlinear_arith)
                requires
                    n > 0,
                    two_to(steps) > 0,
            ;
            assert(two_to(steps + 1) == 2 * two_to(steps));
            assert(n * two_to(steps + 1) == 2 * (n * two_to(steps))) by (nonlinear_arith)
                requires
                    two_to(steps + 1) == 2 * two_to(steps),
            ;
        }
        shifted = shifted * 2;
        exponent = exponent - 1;
        proof {
            steps = steps + 1;
            if steps != 52 - top {
                // Fewer steps leave the number below the mark.
                let left = (52 - top - steps) as nat;
                two_to_add(steps, left);
                two_to_add(top, (52 - top) as nat);
                two_to_positive(steps);
                two_to_positive(top);
                assert(two_to(left) >= 2) by {
                    two_to_positive((left - 1) as nat);
                }
                assert(n * two_to(steps) < 0x10_0000_0000_0000) by (nonlinear_arith)
                    requires
                        n < 2 * two_to(top),
                        two_to(top) * two_to((52 - top) as nat) == 0x10_0000_0000_0000,
                        two_to((52 - top) as nat) == two_to(steps) * two_to(left),
                        two_to(left) >= 2,
                        two_to(steps) > 0,
                        two_to(top) > 0,
                {
                    assert(n * two_to(steps) < 2 * two_to(top) * two_to(steps));
                    assert(2 * two_to(top) * two_to(steps) <= two_to(top) * (two_to(steps) * two_to(
                        left,
                    )));
                }
            }
        }
    }
    proof {
        two_to_positive((52 - top) as nat);
        assert(shifted < 2 * 0x10_0000_0000_0000) by (nonlinear_arith)
            requires
                shifted == n * two_to((52 - top) as nat),
                n < 2 * two_to(top),
                two_to((52 - top) as nat) > 0,
                two_to(top) * two_to((52 - top) as nat) == 0x10_0000_0000_0000,
        ;
    }
    (exponent * 0x10_0000_0000_0000 + shifted) as i64
}

} // verus!
