//! Rational time bases and timestamp rebasing.
//!
//! Every source and sink endpoint carries a time base: a rational unit that
//! says how integer timestamps map to real time.  Rebasing a timestamp from
//! one base into another multiplies it by the ratio of the two units and
//! rounds the result toward negative infinity.

use vstd::prelude::*;
use vstd::arithmetic::div_mod::{
    lemma_div_multiples_vanish, lemma_fundamental_div_mod, lemma_fundamental_div_mod_converse,
};

verus! {

/// A rational unit defining how integer timestamps map to real time.
/// A time base of `num / den` means one timestamp tick lasts `num / den`
/// seconds.  Both components are kept strictly positive.
#[derive(Clone, Copy, Debug, PartialEq, Eq, Structural)]
pub struct TimeBase {
    pub num: u32,
    pub den: u32,
}

impl TimeBase {
    /// A time base is a well-defined positive rational.
    pub open spec fn valid(self) -> bool {
        self.num >= 1 && self.den >= 1
    }

    /// Create a time base of `num / den` seconds per tick.
    pub fn new(num: u32, den: u32) -> (r: TimeBase)
        requires
            num >= 1,
            den >= 1,
        ensures
            r.num == num,
            r.den == den,
            r.valid(),
    {
        TimeBase { num, den }
    }

    /// The numerator of the rational unit.
    pub fn num(&self) -> (r: u32)
        ensures
            r == self.num,
    {
        self.num
    }

    /// The denominator of the rational unit.
    pub fn den(&self) -> (r: u32)
        ensures
            r == self.den,
    {
        self.den
    }
}

/// The value of timestamp `t` rebased from time base `from` into time base
/// `to`: `t` scaled by `(from.num * to.den) / (from.den * to.num)`, rounded
/// toward negative infinity.
pub open spec fn rescale_spec(t: int, from: TimeBase, to: TimeBase) -> int {
    (t * from.num * to.den) / (from.den * to.num)
}

/// Rebasing a timestamp into the same time base leaves it unchanged.
pub proof fn lemma_rescale_identity(t: int, tb: TimeBase)
    requires
        tb.valid(),
    ensures
        rescale_spec(t, tb, tb) == t,
{
    let k: int = tb.den * tb.num;
    assert(tb.den * tb.num >= 1) by (nonlinear_arith)
        requires
            tb.den >= 1,
            tb.num >= 1,
    ;
    assert(t * tb.num * tb.den == (tb.den * tb.num) * t) by (nonlinear_arith);
    lemma_div_multiples_vanish(t, k);
}

/// Rebase timestamp `t` from time base `from` into time base `to`.
///
/// The scaled value must fit the timestamp's machine representation; the
/// rounding is toward negative infinity, matching [`rescale_spec`].
pub fn rescale_timestamp(t: i64, from: TimeBase, to: TimeBase) -> (r: i64)
    requires
        from.valid(),
        to.valid(),
        i64::MIN <= rescale_spec(t as int, from, to) <= i64::MAX,
    ensures
        r == rescale_spec(t as int, from, to),
{
    let ghost n_val: int = t * from.num * to.den;
    let ghost d_val: int = from.den * to.num;

    let mag: u128 = if t >= 0 {
        t as u128
    } else {
        (-(t as i128)) as u128
    };
    proof {
        assert(mag <= 0x8000000000000000u128);
        assert(mag * (from.num as u128) <= 0x8000000000000000u128 * 0xffffffffu128)
            by (nonlinear_arith)
            requires
                mag <= 0x8000000000000000u128,
                from.num <= 0xffffffffu32,
        ;
    }
    let p1: u128 = mag * (from.num as u128);
    proof {
        assert(p1 * (to.den as u128) <= 0x7fffffff800000000000000000000000u128)
            by (nonlinear_arith)
            requires
                p1 <= 0x7fffffff8000000000000000u128,
                to.den <= 0xffffffffu32,
        ;
    }
    let p: u128 = p1 * (to.den as u128);
    proof {
        assert(1 <= (from.den as u128) * (to.num as u128) <= 0xffffffffu128 * 0xffffffffu128)
            by (nonlinear_arith)
            requires
                1 <= from.den <= 0xffffffffu32,
                1 <= to.num <= 0xffffffffu32,
        ;
    }
    let d: u128 = (from.den as u128) * (to.num as u128);
    let q: u128 = p / d;
    let rem: u128 = p % d;
    proof {
        lemma_fundamental_div_mod(p as int, d as int);
        assert(d_val == d as int);
        if t >= 0 {
            assert(p as int == n_val) by (nonlinear_arith)
                requires
                    t >= 0,
                    mag == t as int,
                    p1 == mag * (from.num as u128),
                    p == p1 * (to.den as u128),
                    n_val == t * from.num * to.den,
            ;
            assert(q as int == n_val / d_val);
        } else {
            assert(p as int == -n_val) by (nonlinear_arith)
                requires
                    mag == -(t as int),
                    p1 == mag * (from.num as u128),
                    p == p1 * (to.den as u128),
                    n_val == t * from.num * to.den,
            ;
            if rem == 0 {
                assert(n_val == (-(q as int)) * (d as int) + 0) by (nonlinear_arith)
                    requires
                        n_val == -(p as int),
                        p as int == (d as int) * (q as int) + (rem as int),
                        rem == 0,
                ;
                lemma_fundamental_div_mod_converse(n_val, d as int, -(q as int), 0);
            } else {
                assert(n_val == (-(q as int) - 1) * (d as int) + ((d as int) - (rem as int)))
                    by (nonlinear_arith)
                    requires
                        n_val == -(p as int),
                        p as int == (d as int) * (q as int) + (rem as int),
                ;
                lemma_fundamental_div_mod_converse(
                    n_val,
                    d as int,
                    -(q as int) - 1,
                    (d as int) - (rem as int),
                );
            }
        }
    }
    if t >= 0 {
        q as i64
    } else {
        let qi: i128 = q as i128;
        let resi: i128 = if rem == 0 {
            -qi
        } else {
            -qi - 1
        };
        resi as i64
    }
}

} // verus!
