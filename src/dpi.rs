//! DPI scale factors, held as exact ratios, and the arithmetic that turns
//! logical sizes and positions into pixels.

use vstd::prelude::*;

verus! {

/// A scale factor `num / den`, with `den` positive.
#[derive(Clone, Copy, Debug)]
pub struct Scale {
    num: u32,
    den: u32,
}

/// `n / d` rounded to the nearest integer, halves away from zero.
pub open spec fn round_div(n: int, d: int) -> int {
    if n >= 0 {
        (2 * n + d) / (2 * d)
    } else {
        -((-2 * n + d) / (2 * d))
    }
}

/// `v` held to the range of `i32`.
pub open spec fn clamp_i32(v: int) -> i32 {
    if v < i32::MIN {
        i32::MIN
    } else if v > i32::MAX {
        i32::MAX
    } else {
        v as i32
    }
}

/// The largest magnitude that [`Scale::round`] takes.
pub const ROUND_LIMIT: i128 = 0x1_0000_0000_0000_0000_0000;

impl Scale {
    #[verifier::type_invariant]
    spec fn inv(self) -> bool {
        self.den > 0
    }

    /// The numerator.
    pub closed spec fn spec_num(&self) -> u32 {
        self.num
    }

    /// The denominator.
    pub closed spec fn spec_den(&self) -> u32 {
        self.den
    }

    /// The factor `num / den`, or `None` when `den` is zero.
    pub fn new(num: u32, den: u32) -> (s: Option<Scale>)
        ensures
            s is Some <==> den > 0,
            s matches Some(v) ==> v.spec_num() == num && v.spec_den() == den,
    {
        if den == 0 {
            None
        } else {
            Some(Scale { num, den })
        }
    }

    /// The factor one.
    pub fn one() -> (s: Scale)
        ensures
            s.spec_num() == 1,
            s.spec_den() == 1,
    {
        Scale { num: 1, den: 1 }
    }

    /// The numerator.
    #[verifier::when_used_as_spec(spec_num)]
    pub fn num(&self) -> (n: u32)
        ensures
            n == self.spec_num(),
    {
        self.num
    }

    /// The denominator, which is positive.
    #[verifier::when_used_as_spec(spec_den)]
    pub fn den(&self) -> (d: u32)
        ensures
            d == self.spec_den(),
            d > 0,
    {
        proof {
            use_type_invariant(self);
        }
        self.den
    }

    /// `n` scaled by this factor and rounded down, or `None` when that does
    /// not fit in a `usize`.
    pub fn scale_floor(&self, n: usize) -> (r: Option<usize>)
        ensures
            self.spec_den() > 0,
            r is Some <==> n * self.spec_num() / (self.spec_den() as int) <= usize::MAX,
            r matches Some(v) ==> v == n * self.spec_num() / (self.spec_den() as int),
    {
        proof {
            use_type_invariant(self);
            assert(n * self.num <= (usize::MAX as int) * (u32::MAX as int)) by (nonlinear_arith)
                requires
                    n <= usize::MAX,
                    self.num <= u32::MAX,
            ;
        }
        let prod: u128 = n as u128 * self.num as u128;
        let q: u128 = prod / self.den as u128;
        if q > usize::MAX as u128 {
            None
        } else {
            Some(q as usize)
        }
    }

    /// `v` scaled by this factor, rounded to the nearest integer with halves
    /// away from zero, and held to the range of `i32`.
    pub fn round(&self, v: i128) -> (r: i32)
        requires
            -ROUND_LIMIT <= v <= ROUND_LIMIT,
        ensures
            r == clamp_i32(round_div(v * self.spec_num(), self.spec_den() as int)),
    {
        proof {
            use_type_invariant(self);
        }
        let num: i128 = self.num as i128;
        let den: u128 = self.den as u128;
        let mag: u128 = if v >= 0 { v as u128 } else { (-v) as u128 };
        proof {
            assert(mag * num <= ROUND_LIMIT * (u32::MAX as int)) by (nonlinear_arith)
                requires
                    0 <= mag <= ROUND_LIMIT,
                    0 <= num <= u32::MAX,
            ;
        }
        let scaled: u128 = mag * (num as u128);
        let q: u128 = (2 * scaled + den) / (2 * den);
        proof {
            let n: int = v * num;
            if v >= 0 {
                assert(n == scaled);
                assert(round_div(n, den as int) == q);
            } else {
                assert(n == -scaled) by (nonlinear_arith)
                    requires
                        mag == -v,
                        scaled == mag * num,
                        n == v * num,
                ;
                if scaled == 0 {
                    assert(q == 0) by (nonlinear_arith)
                        requires
                            q == (2 * scaled + den) / (2 * den),
                            scaled == 0,
                            den > 0,
                    ;
                }
                assert(round_div(n, den as int) == -q);
            }
        }
        if v >= 0 || q == 0 {
            if q > i32::MAX as u128 {
                i32::MAX
            } else {
                q as i32
            }
        } else if q > 0x8000_0000u128 {
            i32::MIN
        } else {
            (-(q as i128)) as i32
        }
    }
}

} // verus!
