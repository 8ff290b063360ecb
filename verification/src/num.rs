//! Fixed-point integer arithmetic helpers shared by the tool geometry.
//!
//! Positions and lengths are carried in thousandths of a document unit
//! ("milli-units"), zoom factors in thousandths, and times in milliseconds,
//! so that every computation is exact integer arithmetic.

use vstd::arithmetic::div_mod::{
    lemma_fundamental_div_mod, lemma_fundamental_div_mod_converse_div,
};
use vstd::prelude::*;

verus! {

/// Fixed-point scale: one document unit is this many fixed-point steps.
pub const MILLI: i64 = 1000;

/// Largest magnitude accepted for an input coordinate (pointer positions,
/// page formats), in milli-units: one billion document units.
pub const COORD_LIMIT: i64 = 1_000_000_000_000;

/// Largest magnitude the camera offset is clamped to, in milli-units.
pub const OFFSET_LIMIT: i64 = 10_000_000_000_000;

/// Bound on surface (device) coordinates produced by the camera transform
/// from in-range document coordinates and offsets.
pub const SURFACE_LIMIT: i64 = 20_000_000_000_000;

/// Largest magnitude a stored stroke position is clamped to when strokes are
/// translated, in milli-units.
pub const STROKE_POS_LIMIT: i64 = 4_000_000_000_000;

/// Bound on the camera (viewport) size in milli-units: one million units.
pub const CAMERA_SIZE_LIMIT: i64 = 1_000_000_000;

/// Largest snap-grid step accepted, in milli-units: one thousand units.
pub const GRID_LIMIT: i64 = 1_000_000;

/// Bound on the offset a single translation may move strokes by.
pub const TRANSLATE_LIMIT: i64 = STROKE_POS_LIMIT + COORD_LIMIT + GRID_LIMIT;

/// Bound on the positions handed to the snap-grid computation.
pub const SNAP_INPUT_LIMIT: i64 = COORD_LIMIT + STROKE_POS_LIMIT;

/// Clamp `v` into the closed interval `[lo, hi]`.
pub open spec fn clamp_spec(v: int, lo: int, hi: int) -> int {
    if v < lo {
        lo
    } else if v > hi {
        hi
    } else {
        v
    }
}

/// Clamp a value into a closed interval.
pub fn clamp_i64(v: i64, lo: i64, hi: i64) -> (r: i64)
    requires
        lo <= hi,
    ensures
        r == clamp_spec(v as int, lo as int, hi as int),
{
    if v < lo {
        lo
    } else if v > hi {
        hi
    } else {
        v
    }
}

/// Floor division by a positive divisor. For `b > 0` the mathematical `/`
/// of the specification language (Euclidean division) is exactly floor
/// division, so the contract is stated with it directly.
pub fn div_floor(a: i64, b: i64) -> (r: i64)
    requires
        b > 0,
        a > i64::MIN,
    ensures
        r == a as int / b as int,
        b * r <= a < b * (r + 1),
{
    if a >= 0 {
        let q = (a as u64) / (b as u64);
        proof {
            lemma_fundamental_div_mod(a as int, b as int);
            assert(b * ((a as int / b as int) + 1) == b * (a as int / b as int) + b)
                by (nonlinear_arith);
        }
        q as i64
    } else {
        // For a < 0 and b > 0, the floor quotient is the negated ceiling
        // quotient of the magnitudes: -ceil(-a / b), and for -a >= 1 the
        // ceiling is (-a - 1) / b + 1.
        let na = -a;
        let q = ((na - 1) as u64) / (b as u64);
        let r = -(q as i64) - 1;
        proof {
            let nai = na as int;
            let bi = b as int;
            let qi = q as int;
            lemma_fundamental_div_mod(nai - 1, bi);
            let s = (nai - 1) % bi;
            assert(nai - 1 == bi * qi + s);
            assert(a as int == (-qi - 1) * bi + (bi - s - 1)) by (nonlinear_arith)
                requires
                    a as int == -nai && nai - 1 == bi * qi + s,
            ;
            lemma_fundamental_div_mod_converse_div(a as int, bi, -qi - 1, bi - s - 1);
            assert(bi * (r as int) <= a as int) by (nonlinear_arith)
                requires
                    r as int == -qi - 1 && a as int == (-qi - 1) * bi + (bi - s - 1) && s < bi,
            ;
            assert(a < bi * (r as int + 1)) by (nonlinear_arith)
                requires
                    r as int == -qi - 1 && a as int == (-qi - 1) * bi + (bi - s - 1) && 0 <= s
                        && bi > 0,
            ;
        }
        r
    }
}

/// Floor division with a bound carried through: if `|a| <= m * b` then the
/// quotient stays within `[-m, m]`.
pub fn div_floor_bounded(a: i64, b: i64, m: i64) -> (r: i64)
    requires
        b > 0,
        m >= 0,
        a > i64::MIN,
        -(m * b) <= a <= m * b,
    ensures
        r == a as int / b as int,
        -m <= r <= m,
{
    let r = div_floor(a, b);
    proof {
        assert(r <= m) by (nonlinear_arith)
            requires
                b > 0 && m >= 0 && b * r <= a && a <= m * b,
        ;
        assert(-m <= r) by (nonlinear_arith)
            requires
                b > 0 && m >= 0 && a < b * (r + 1) && -(m * b) <= a,
        ;
    }
    r
}

/// `v` rounded to the nearest multiple of `g` (ties upward): the snap-grid
/// rounding rule.
pub open spec fn round_to_multiple_spec(v: int, g: int) -> int {
    ((v + g / 2) / g) * g
}

/// Round a coordinate to the nearest multiple of the grid step `g`.
pub fn round_to_multiple(v: i64, g: i64) -> (r: i64)
    requires
        0 < g <= GRID_LIMIT,
        -COORD_LIMIT - STROKE_POS_LIMIT <= v <= COORD_LIMIT + STROKE_POS_LIMIT,
    ensures
        r == round_to_multiple_spec(v as int, g as int),
        v - g <= r <= v + g,
{
    let h = g / 2;
    let q = div_floor(v + h, g);
    proof {
        assert(g * (q + 1) == g * q + g) by (nonlinear_arith);
        assert(q * g == g * q) by (nonlinear_arith);
        assert(v - g <= g * q <= v + g);
    }
    q * g
}

/// Integer square root: the largest `r` with `r * r <= x`.
pub fn isqrt(x: u64) -> (r: u64)
    ensures
        r * r <= x < (r + 1) * (r + 1),
{
    let mut lo: u64 = 0;
    let mut hi: u64 = 4_294_967_296;
    proof {
        assert(x < hi * hi) by (nonlinear_arith)
            requires
                hi == 4_294_967_296 && x <= u64::MAX,
        ;
    }
    while lo + 1 < hi
        invariant
            lo < hi <= 4_294_967_296,
            lo * lo <= x,
            x < hi * hi,
        decreases hi - lo,
    {
        let mid = lo + (hi - lo) / 2;
        assert(lo < mid < hi);
        let q = x / mid;
        proof {
            lemma_fundamental_div_mod(x as int, mid as int);
        }
        if mid <= q {
            proof {
                assert(mid * mid <= x) by (nonlinear_arith)
                    requires
                        mid > 0 && mid <= q && x as int == mid * q + (x as int % mid as int)
                            && 0 <= x as int % mid as int,
                ;
            }
            lo = mid;
        } else {
            proof {
                assert(x < mid * mid) by (nonlinear_arith)
                    requires
                        mid > q && x as int == mid * q + (x as int % mid as int) && (x as int
                            % mid as int) < mid,
                ;
            }
            hi = mid;
        }
    }
    lo
}

} // verus!
