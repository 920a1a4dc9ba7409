//! Rectangle and point arithmetic and the exponential zoom scale.
//!
//! The zoom scale is the rational number `factor^level`, which is negative
//! powers for zoomed-out levels. Scaling a coordinate multiplies it by that
//! rational and truncates toward zero; results that leave the machine range
//! saturate at the range's ends.

use vstd::prelude::*;
use vstd::arithmetic::power::{
    pow, lemma1_pow, lemma_pow0, lemma_pow1, lemma_pow_adds, lemma_pow_positive,
    lemma_pow_increases, lemma_pow_strictly_increases,
};
use vstd::arithmetic::div_mod::{lemma_basic_div, lemma_div_nonincreasing, lemma_div_basics_4};

verus! {

/// A point in the plane; also used as a translation vector.
#[derive(Clone, Copy, Debug, PartialEq, Eq, Structural)]
pub struct Point {
    pub x: i32,
    pub y: i32,
}

/// An axis-aligned rectangle; `(x, y)` is its top-left corner.
#[derive(Clone, Copy, Debug, PartialEq, Eq, Structural)]
pub struct Rect {
    pub x: i32,
    pub y: i32,
    pub w: u32,
    pub h: u32,
}

pub open spec fn clamp_int(v: int, lo: int, hi: int) -> int {
    if v < lo {
        lo
    } else if v > hi {
        hi
    } else {
        v
    }
}

/// Saturation of a mathematical integer into the `i32` range.
pub open spec fn sat_i32(v: int) -> int {
    clamp_int(v, i32::MIN as int, i32::MAX as int)
}

/// Saturation of a mathematical integer into the `u32` range.
pub open spec fn sat_u32(v: int) -> int {
    clamp_int(v, 0, u32::MAX as int)
}

/// Division truncating toward zero, the rounding used when scaling
/// coordinates down.
pub open spec fn div_to_zero(a: int, b: int) -> int
    recommends
        b > 0,
{
    if a >= 0 {
        a / b
    } else {
        -((-a) / b)
    }
}

/// Numerator of the zoom scale `factor^level`.
pub open spec fn scale_num(factor: int, level: int) -> int {
    if level >= 0 {
        pow(factor, level as nat)
    } else {
        1
    }
}

/// Denominator of the zoom scale `factor^level`.
pub open spec fn scale_den(factor: int, level: int) -> int {
    if level >= 0 {
        1
    } else {
        pow(factor, (-level) as nat)
    }
}

/// A coordinate scaled by `factor^level`, truncating toward zero.
pub open spec fn scale_of(v: int, factor: int, level: int) -> int
    recommends
        factor >= 1,
{
    div_to_zero(v * scale_num(factor, level), scale_den(factor, level))
}

/// Law: for a fixed factor greater than one the zoom scale strictly
/// increases with the level, level 0 gives exactly the scale one, and a
/// negative level gives a scale strictly between zero and one.
pub proof fn lemma_scale_monotonic(factor: int, level: int)
    requires
        factor > 1,
    ensures
        scale_num(factor, level + 1) * scale_den(factor, level) > scale_num(factor, level)
            * scale_den(factor, level + 1),
        scale_num(factor, 0) == 1,
        scale_den(factor, 0) == 1,
        scale_num(factor, level) > 0,
        scale_den(factor, level) > 0,
        level < 0 ==> scale_num(factor, level) < scale_den(factor, level),
{
    lemma_pow0(factor);
    if level >= 0 {
        lemma_pow_strictly_increases(factor as nat, level as nat, (level + 1) as nat);
        lemma_pow_positive(factor, level as nat);
        lemma_pow_positive(factor, (level + 1) as nat);
    } else if level == -1 {
        lemma_pow1(factor);
        lemma_pow_positive(factor, 1nat);
    } else {
        lemma_pow_strictly_increases(factor as nat, (-level - 1) as nat, (-level) as nat);
        lemma_pow_strictly_increases(factor as nat, 0nat, (-level) as nat);
        lemma_pow_positive(factor, (-level) as nat);
        lemma_pow_positive(factor, (-level - 1) as nat);
    }
}

fn clamp_i64_to_i32(v: i64) -> (r: i32)
    ensures
        r as int == sat_i32(v as int),
{
    if v < i32::MIN as i64 {
        i32::MIN
    } else if v > i32::MAX as i64 {
        i32::MAX
    } else {
        v as i32
    }
}

/// `factor^k` when it is at most `cap`, and `None` when it exceeds it.
fn pow_capped(factor: u32, k: u64, cap: u64) -> (r: Option<u64>)
    requires
        factor >= 1,
        cap >= 1,
    ensures
        match r {
            Some(m) => m as int == pow(factor as int, k as nat) && m <= cap,
            None => pow(factor as int, k as nat) > cap,
        },
{
    if factor == 1 {
        proof {
            lemma1_pow(k as nat);
        }
        return Some(1);
    }
    let mut m: u64 = 1;
    let mut i: u64 = 0;
    proof {
        lemma_pow0(factor as int);
    }
    while i < k
        invariant
            i <= k,
            factor >= 2,
            cap >= 1,
            m as int == pow(factor as int, i as nat),
            m <= cap,
        decreases k - i,
    {
        proof {
            assert((m as int) * (factor as int) <= 0xffff_ffff_ffff_ffff * 0xffff_ffff)
                by (nonlinear_arith)
                requires
                    0 <= m as int <= 0xffff_ffff_ffff_ffff,
                    0 <= factor as int <= 0xffff_ffff,
            ;
            lemma_pow1(factor as int);
            lemma_pow_adds(factor as int, i as nat, 1nat);
            assert(pow(factor as int, (i + 1) as nat) == pow(factor as int, i as nat) * (
            factor as int));
        }
        let next: u128 = (m as u128) * (factor as u128);
        if next > cap as u128 {
            proof {
                lemma_pow_increases(factor as nat, (i + 1) as nat, k as nat);
            }
            return None;
        }
        m = next as u64;
        i = i + 1;
    }
    Some(m)
}

/// A signed coordinate scaled by `factor^level`, saturating at the `i32`
/// range.
pub fn scale_i32(v: i32, factor: u32, level: i32) -> (r: i32)
    requires
        factor >= 1,
    ensures
        r as int == sat_i32(scale_of(v as int, factor as int, level as int)),
{
    if level >= 0 {
        match pow_capped(factor, level as u64, 0x1_0000_0000u64) {
            Some(m) => {
                proof {
                    assert((v as int) * (m as int) >= i64::MIN && (v as int) * (m as int)
                        <= i64::MAX) by (nonlinear_arith)
                        requires
                            -0x8000_0000 <= v as int <= 0x7fff_ffff,
                            0 <= m as int <= 0x1_0000_0000,
                    ;
                }
                let prod: i64 = (v as i64) * (m as i64);
                let r = clamp_i64_to_i32(prod);
                proof {
                    assert(div_to_zero(prod as int, 1) == prod as int);
                    assert(scale_num(factor as int, level as int) == m as int);
                }
                r
            },
            None => {
                let r = if v > 0 {
                    i32::MAX
                } else if v < 0 {
                    i32::MIN
                } else {
                    0
                };
                proof {
                    let p = pow(factor as int, (level as u64) as nat);
                    assert(scale_num(factor as int, level as int) == p);
                    assert(div_to_zero((v as int) * p, 1) == (v as int) * p);
                    if v > 0 {
                        assert((v as int) * p >= p) by (nonlinear_arith)
                            requires
                                v as int >= 1,
                                p > 0,
                        ;
                        assert(sat_i32((v as int) * p) == i32::MAX as int);
                    } else if v < 0 {
                        assert((v as int) * p <= -p) by (nonlinear_arith)
                            requires
                                v as int <= -1,
                                p > 0,
                        ;
                        assert(sat_i32((v as int) * p) == i32::MIN as int);
                    } else {
                        assert((v as int) * p == 0) by (nonlinear_arith)
                            requires
                                v as int == 0,
                        ;
                    }
                }
                r
            },
        }
    } else {
        let k: u64 = (-(level as i64)) as u64;
        match pow_capped(factor, k, 0x8000_0000u64) {
            Some(d) => {
                proof {
                    lemma_pow_positive(factor as int, k as nat);
                }
                if v >= 0 {
                    let q: u64 = (v as u64) / d;
                    proof {
                        lemma_div_nonincreasing(v as int, d as int);
                        lemma_div_basics_4(v as int, d as int);
                    }
                    q as i32
                } else {
                    let mag: u64 = (-(v as i64)) as u64;
                    let q: u64 = mag / d;
                    proof {
                        lemma_div_nonincreasing(mag as int, d as int);
                        lemma_div_basics_4(mag as int, d as int);
                    }
                    (-(q as i64)) as i32
                }
            },
            None => {
                proof {
                    let p = pow(factor as int, k as nat);
                    if v >= 0 {
                        lemma_basic_div(v as int, p);
                    } else {
                        lemma_basic_div(-(v as int), p);
                    }
                }
                0
            },
        }
    }
}

/// An unsigned size scaled by `factor^level`, saturating at the `u32` range.
pub fn scale_u32(v: u32, factor: u32, level: i32) -> (r: u32)
    requires
        factor >= 1,
    ensures
        r as int == sat_u32(scale_of(v as int, factor as int, level as int)),
{
    if level >= 0 {
        match pow_capped(factor, level as u64, 0x1_0000_0000u64) {
            Some(m) => {
                proof {
                    assert((v as int) * (m as int) <= 0xffff_ffff * 0x1_0000_0000)
                        by (nonlinear_arith)
                        requires
                            0 <= v as int <= 0xffff_ffff,
                            0 <= m as int <= 0x1_0000_0000,
                    ;
                }
                let prod: u64 = (v as u64) * (m as u64);
                let r = if prod > u32::MAX as u64 {
                    u32::MAX
                } else {
                    prod as u32
                };
                proof {
                    assert(div_to_zero(prod as int, 1) == prod as int);
                    assert(scale_den(factor as int, level as int) == 1);
                    assert(scale_num(factor as int, level as int) == m as int);
                }
                r
            },
            None => {
                proof {
                    let p = pow(factor as int, (level as u64) as nat);
                    assert(scale_num(factor as int, level as int) == p);
                    assert(scale_den(factor as int, level as int) == 1);
                    if v >= 1 {
                        assert((v as int) * p >= p) by (nonlinear_arith)
                            requires
                                v as int >= 1,
                                p > 0,
                        ;
                    }
                    assert(div_to_zero((v as int) * p, 1) == (v as int) * p);
                    assert(scale_of(v as int, factor as int, level as int) == (v as int) * p);
                    if v > 0 {
                        assert((v as int) * p > 0xffff_ffff);
                        assert(sat_u32((v as int) * p) == u32::MAX as int);
                    } else {
                        assert((v as int) * p == 0) by (nonlinear_arith)
                            requires
                                v as int == 0,
                        ;
                    }
                }
                if v > 0 {
                    u32::MAX
                } else {
                    0
                }
            },
        }
    } else {
        let k: u64 = (-(level as i64)) as u64;
        match pow_capped(factor, k, 0xffff_ffffu64) {
            Some(d) => {
                proof {
                    lemma_pow_positive(factor as int, k as nat);
                    lemma_div_nonincreasing(v as int, d as int);
                    lemma_div_basics_4(v as int, d as int);
                }
                ((v as u64) / d) as u32
            },
            None => {
                proof {
                    lemma_basic_div(v as int, pow(factor as int, k as nat));
                }
                0
            },
        }
    }
}

impl Rect {
    pub open spec fn left(self) -> int {
        self.x as int
    }

    pub open spec fn right(self) -> int {
        self.x as int + self.w as int
    }

    pub open spec fn top(self) -> int {
        self.y as int
    }

    pub open spec fn bottom(self) -> int {
        self.y as int + self.h as int
    }

    /// The rectangle translated by `(dx, dy)`, coordinates saturating at the
    /// `i32` range.
    pub open spec fn spec_shifted(self, dx: int, dy: int) -> Rect {
        Rect {
            x: sat_i32(self.x + dx) as i32,
            y: sat_i32(self.y + dy) as i32,
            w: self.w,
            h: self.h,
        }
    }

    /// The rectangle scaled by `factor^level` about the origin.
    pub open spec fn spec_scaled(self, factor: int, level: int) -> Rect {
        Rect {
            x: sat_i32(scale_of(self.x as int, factor, level)) as i32,
            y: sat_i32(scale_of(self.y as int, factor, level)) as i32,
            w: sat_u32(scale_of(self.w as int, factor, level)) as u32,
            h: sat_u32(scale_of(self.h as int, factor, level)) as u32,
        }
    }

    /// Translates the rectangle by a vector.
    pub fn shifted(self, dx: i32, dy: i32) -> (r: Rect)
        ensures
            r == self.spec_shifted(dx as int, dy as int),
    {
        let x = clamp_i64_to_i32(self.x as i64 + dx as i64);
        let y = clamp_i64_to_i32(self.y as i64 + dy as i64);
        Rect { x, y, w: self.w, h: self.h }
    }

    /// Scales the rectangle by `factor^level` about the origin (not about
    /// its own corner), truncating each value to an integer.
    pub fn scaled(self, factor: u32, level: i32) -> (r: Rect)
        requires
            factor >= 1,
        ensures
            r == self.spec_scaled(factor as int, level as int),
    {
        Rect {
            x: scale_i32(self.x, factor, level),
            y: scale_i32(self.y, factor, level),
            w: scale_u32(self.w, factor, level),
            h: scale_u32(self.h, factor, level),
        }
    }
}

} // verus!
