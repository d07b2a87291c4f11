//! Deterministic fixed-point scalar and 2-vector arithmetic.
//!
//! A scalar is an `i64` counting ten-thousandths of a world unit, so a
//! coefficient such as 0.970 or a half-unit offset is represented exactly.
//! Division and multiplication truncate toward zero, mirroring the rounding
//! of the hardware operations the simulation is specified against.

use vstd::prelude::*;

verus! {

/// Number of fixed-point steps per world unit.
pub const FX_ONE: i64 = 10000;

/// Magnitude bound under which the simulation keeps every coordinate,
/// velocity and force component it is handed (2^40 steps, about 1.1e8
/// world units). Intermediate arithmetic on such values cannot overflow.
pub const FX_LIM: i64 = 0x100_0000_0000;

/// A bound on one fixed-point component.
pub open spec fn fxb(a: int) -> bool {
    -FX_LIM <= a <= FX_LIM
}

/// Truncating division (round toward zero), the rounding of `/` on machine
/// integers; `b` is expected positive.
pub open spec fn tdiv(a: int, b: int) -> int {
    if a >= 0 {
        a / b
    } else {
        -((-a) / b)
    }
}

/// Rounding division: nearest integer, halves away from zero; `b` positive.
pub open spec fn rdiv_s(a: int, b: int) -> int {
    if a >= 0 {
        (a + b / 2) / b
    } else {
        -(((-a) + b / 2) / b)
    }
}

pub open spec fn abs_s(a: int) -> int {
    if a >= 0 {
        a
    } else {
        -a
    }
}

/// Fixed-point product: `a * b` rescaled back, truncating toward zero.
pub open spec fn fx_mul_s(a: int, b: int) -> int {
    tdiv(a * b, FX_ONE as int)
}

/// Fixed-point quotient: `a / b` in world units, truncating toward zero.
pub open spec fn fx_div_s(a: int, b: int) -> int {
    tdiv(a * (FX_ONE as int), b)
}

/// `r` is the integer square root of `n`.
pub open spec fn is_sqrt(n: int, r: int) -> bool {
    &&& 0 <= r
    &&& r * r <= n
    &&& n < (r + 1) * (r + 1)
}

/// The integer square root, as a function. `lemma_sqrt_exists` and
/// `lemma_sqrt_unique` justify the use of `choose`.
pub open spec fn sqrt_s(n: int) -> int {
    choose|r: int| is_sqrt(n, r)
}

pub proof fn lemma_sqrt_exists(n: nat)
    ensures
        is_sqrt(n as int, sqrt_s(n as int)),
    decreases n,
{
    if n == 0 {
        assert(is_sqrt(0, 0));
    } else {
        lemma_sqrt_exists((n - 1) as nat);
        let r = sqrt_s(n - 1);
        assert(is_sqrt(n - 1, r));
        if (r + 1) * (r + 1) <= n as int {
            assert(is_sqrt(n as int, r + 1)) by (nonlinear_arith)
                requires
                    is_sqrt(n - 1, r),
                    (r + 1) * (r + 1) <= n as int,
            ;
            assert(sqrt_s(n as int) == sqrt_s(n as int));
        } else {
            assert(is_sqrt(n as int, r));
        }
        let w = choose|w: int| is_sqrt(n as int, w);
        assert(is_sqrt(n as int, w));
    }
}

pub proof fn lemma_sqrt_unique(n: int, r: int)
    requires
        is_sqrt(n, r),
    ensures
        r == sqrt_s(n),
{
    let w = sqrt_s(n);
    assert(is_sqrt(n, w));
    assert(r == w) by (nonlinear_arith)
        requires
            is_sqrt(n, r),
            is_sqrt(n, w),
    ;
}

/// The square root never exceeds the sum of the absolute legs.
pub proof fn lemma_sqrt_le(x: int, y: int, r: int)
    requires
        is_sqrt(x * x + y * y, r),
    ensures
        r <= abs_s(x) + abs_s(y),
        abs_s(x) <= r,
        abs_s(y) <= r,
{
    let a = abs_s(x);
    let b = abs_s(y);
    assert(r <= a + b && a <= r && b <= r) by (nonlinear_arith)
        requires
            is_sqrt(x * x + y * y, r),
            a == abs_s(x),
            b == abs_s(y),
    ;
}

/// Absolute value; the simulation never stores `i64::MIN`.
pub fn abs_i64(a: i64) -> (r: u64)
    ensures
        r as int == abs_s(a as int),
{
    if a >= 0 {
        a as u64
    } else {
        let w: i128 = -(a as i128);
        w as u64
    }
}

/// Integer square root by bisection.
pub fn isqrt(n: u128) -> (r: u64)
    requires
        (n as int) < 0x4000_0000_0000_0000_0000_0000_0000_0000,
    ensures
        is_sqrt(n as int, r as int),
        r as int == sqrt_s(n as int),
{
    let mut lo: u64 = 0;
    let mut hi: u64 = 0x8000_0000_0000_0000;
    proof {
        assert((hi as int) * (hi as int) > n as int) by (nonlinear_arith)
            requires
                hi == 0x8000_0000_0000_0000u64,
                (n as int) < 0x4000_0000_0000_0000_0000_0000_0000_0000,
        ;
    }
    while lo + 1 < hi
        invariant
            (lo as int) * (lo as int) <= n as int,
            (n as int) < (hi as int) * (hi as int),
            lo < hi,
            hi <= 0x8000_0000_0000_0000,
        decreases hi - lo,
    {
        let mid = lo + (hi - lo) / 2;
        proof {
            assert((mid as int) * (mid as int) <= 0x4000_0000_0000_0000_0000_0000_0000_0000)
                by (nonlinear_arith)
                requires
                    mid <= 0x8000_0000_0000_0000u64,
            ;
        }
        let sq = (mid as u128) * (mid as u128);
        if sq <= n {
            lo = mid;
        } else {
            hi = mid;
        }
    }
    proof {
        assert(is_sqrt(n as int, lo as int));
        lemma_sqrt_unique(n as int, lo as int);
    }
    lo
}

/// Splitting a product into sign and magnitude.
proof fn lemma_mul_sign_abs(a: int, b: int)
    ensures
        abs_s(a * b) == abs_s(a) * abs_s(b),
        a >= 0 && b >= 0 ==> a * b >= 0,
        a < 0 && b < 0 ==> a * b >= 0,
        a < 0 && b >= 0 ==> a * b <= 0,
        a >= 0 && b < 0 ==> a * b <= 0,
{
    assert(abs_s(a * b) == abs_s(a) * abs_s(b) && (a >= 0 && b >= 0 ==> a * b >= 0) && (a < 0 && b
        < 0 ==> a * b >= 0) && (a < 0 && b >= 0 ==> a * b <= 0) && (a >= 0 && b < 0 ==> a * b <= 0))
        by (nonlinear_arith);
}

/// A product of bounded factors is bounded by the product of the bounds.
pub proof fn lemma_mul_abs_le(a: int, b: int, aa: int, bb: int)
    requires
        abs_s(a) <= aa,
        abs_s(b) <= bb,
    ensures
        abs_s(a * b) <= aa * bb,
{
    lemma_mul_sign_abs(a, b);
    assert(abs_s(a) * abs_s(b) <= aa * bb) by (nonlinear_arith)
        requires
            0 <= abs_s(a) <= aa,
            0 <= abs_s(b) <= bb,
    ;
}

/// Bound on a rescaled product from bounds on the factors.
pub proof fn lemma_fx_mul_abs(a: int, b: int, aa: int, bb: int)
    requires
        abs_s(a) <= aa,
        abs_s(b) <= bb,
    ensures
        abs_s(fx_mul_s(a, b)) <= (aa * bb) / (FX_ONE as int),
        abs_s(a * b) <= aa * bb,
{
    lemma_mul_abs_le(a, b, aa, bb);
    let p = a * b;
    assert(abs_s(tdiv(p, 10000)) <= abs_s(p) / 10000) by (nonlinear_arith);
    assert(abs_s(p) / 10000 <= (aa * bb) / 10000) by (nonlinear_arith)
        requires
            abs_s(p) <= aa * bb,
    ;
}

/// Scaling a truncated quotient back never exceeds the dividend.
pub proof fn lemma_div_mul_le(a: int, b: int)
    requires
        a >= 0,
        b >= 1,
    ensures
        (a / b) * b <= a,
        0 <= a / b,
{
    assert((a / b) * b <= a && 0 <= a / b) by (nonlinear_arith)
        requires
            a >= 0,
            b >= 1,
    ;
}

/// Fixed-point product, truncating toward zero. The bound keeps the rescaled
/// result inside `i64`.
pub fn fx_mul(a: i64, b: i64) -> (r: i64)
    requires
        abs_s((a as int) * (b as int)) <= 90_000_000_000_000_000_000_000,
    ensures
        r as int == fx_mul_s(a as int, b as int),
        abs_s(r as int) <= abs_s(a as int) * abs_s(b as int) / (FX_ONE as int),
{
    let neg = (a < 0) != (b < 0);
    let pa = abs_i64(a);
    let pb = abs_i64(b);
    proof {
        lemma_mul_sign_abs(a as int, b as int);
    }
    let p = (pa as u128) * (pb as u128);
    let q = p / 10000;
    proof {
        assert(p as int == abs_s((a as int) * (b as int)));
        assert(q as int == abs_s((a as int) * (b as int)) / 10000);
        assert(q <= 9_000_000_000_000_000_000u128) by (nonlinear_arith)
            requires
                q as int == abs_s((a as int) * (b as int)) / 10000,
                abs_s((a as int) * (b as int)) <= 90_000_000_000_000_000_000_000,
        ;
    }
    let r = if neg {
        -(q as i64)
    } else {
        q as i64
    };
    proof {
        let prod = (a as int) * (b as int);
        if prod >= 0 {
            assert(tdiv(prod, 10000) == prod / 10000);
            if neg {
                assert(prod <= 0);
                assert(prod == 0);
            }
        } else {
            assert(tdiv(prod, 10000) == -((-prod) / 10000));
            assert(neg);
        }
    }
    r
}

/// Fixed-point quotient by a positive scalar, truncating toward zero.
pub fn fx_div(a: i64, b: i64) -> (r: i64)
    requires
        b >= 1,
        abs_s(a as int) <= 0x2000_0000_0000_0000_0000int / 10000,
        abs_s(fx_div_s(a as int, b as int)) <= i64::MAX as int,
    ensures
        r as int == fx_div_s(a as int, b as int),
{
    let pa = abs_i64(a);
    let p = (pa as u128) * 10000;
    let q = p / (b as u128);
    proof {
        assert(q as int == (abs_s(a as int) * 10000) / (b as int));
        assert(abs_s((a as int) * 10000) == abs_s(a as int) * 10000) by (nonlinear_arith);
        lemma_mul_sign_abs(a as int, 10000);
        let num = (a as int) * 10000;
        if a >= 0 {
            assert(tdiv(num, b as int) == num / (b as int));
        } else {
            assert(num <= 0);
        }
        assert(q as int == abs_s(fx_div_s(a as int, b as int))) by {
            assert(abs_s(num) / (b as int) == abs_s(tdiv(num, b as int)));
        }
    }
    if a < 0 {
        -(q as i64)
    } else {
        q as i64
    }
}

/// Truncating integer division by a positive scalar.
pub fn div_trunc(a: i64, b: i64) -> (r: i64)
    requires
        b >= 1,
        abs_s(a as int) <= i64::MAX as int,
    ensures
        r as int == tdiv(a as int, b as int),
        abs_s(r as int) <= abs_s(a as int),
{
    let pa = abs_i64(a);
    let q = pa / (b as u64);
    proof {
        assert(q <= pa) by (nonlinear_arith)
            requires
                q == pa / (b as u64),
                b >= 1,
        ;
    }
    if a < 0 {
        -(q as i64)
    } else {
        q as i64
    }
}

/// Rounding division by a positive scalar: nearest, halves away from zero.
pub fn div_round(a: i64, b: i64) -> (r: i64)
    requires
        b >= 1,
        abs_s(a as int) + b <= i64::MAX as int,
    ensures
        r as int == rdiv_s(a as int, b as int),
        abs_s(r as int) <= abs_s(a as int) + 1,
{
    let pa = abs_i64(a);
    let q = (pa + (b as u64) / 2) / (b as u64);
    proof {
        assert(q as int <= pa as int + 1) by (nonlinear_arith)
            requires
                q as int == (pa as int + (b as int) / 2) / (b as int),
                b >= 1,
                pa as int == abs_s(a as int),
        ;
    }
    if a < 0 {
        -(q as i64)
    } else {
        q as i64
    }
}

/// A fixed-point 2-vector (world position, velocity, force or normal).
#[derive(Clone, Copy, PartialEq, Eq, Structural, Debug)]
pub struct Vec2 {
    pub x: i64,
    pub y: i64,
}

/// Euclidean length of `(x, y)`, rounded down.
pub open spec fn vlen_s(x: int, y: int) -> int {
    sqrt_s(x * x + y * y)
}

/// `(x, y)` scaled to (fixed-point) unit length, truncating toward zero;
/// vectors shorter than one fixed-point step normalize to zero.
pub open spec fn vnorm_s(x: int, y: int) -> (int, int) {
    let l = vlen_s(x, y);
    if l == 0 {
        (0, 0)
    } else {
        (tdiv(x * (FX_ONE as int), l), tdiv(y * (FX_ONE as int), l))
    }
}

/// Distance from `(x3, y3)` to the line through `(x1, y1)` and `(x2, y2)`,
/// rounded down; the two line points must be distinct.
pub open spec fn pld_s(x1: int, y1: int, x2: int, y2: int, x3: int, y3: int) -> int {
    let cross = (y2 - y1) * (x3 - x1) - (x2 - x1) * (y3 - y1);
    abs_s(cross) / vlen_s(x2 - x1, y2 - y1)
}

pub open spec fn v2b(v: Vec2) -> bool {
    fxb(v.x as int) && fxb(v.y as int)
}

/// Vector length. The bound admits sums and differences of in-range vectors.
pub fn vec2length(x: i64, y: i64) -> (r: i64)
    requires
        abs_s(x as int) <= 0x1000_0000_0000_0000,
        abs_s(y as int) <= 0x1000_0000_0000_0000,
    ensures
        r as int == vlen_s(x as int, y as int),
        0 <= r as int <= abs_s(x as int) + abs_s(y as int),
        is_sqrt((x as int) * (x as int) + (y as int) * (y as int), r as int),
{
    let pa = abs_i64(x);
    let pb = abs_i64(y);
    proof {
        assert((pa as int) * (pa as int) == (x as int) * (x as int) && (pb as int) * (pb as int)
            == (y as int) * (y as int) && (pa as int) * (pa as int) + (pb as int) * (pb as int)
            < 0x4000_0000_0000_0000_0000_0000_0000_0000int) by (nonlinear_arith)
            requires
                pa as int == abs_s(x as int),
                pb as int == abs_s(y as int),
                pa <= 0x1000_0000_0000_0000u64,
                pb <= 0x1000_0000_0000_0000u64,
        ;
    }
    let n = (pa as u128) * (pa as u128) + (pb as u128) * (pb as u128);
    let r = isqrt(n);
    proof {
        lemma_sqrt_le(x as int, y as int, r as int);
    }
    r as i64
}

/// The normalized direction of `v`: each component is at most one unit.
pub fn vec2normalize(v: Vec2) -> (r: Vec2)
    requires
        abs_s(v.x as int) <= 0x1000_0000_0000_0000,
        abs_s(v.y as int) <= 0x1000_0000_0000_0000,
    ensures
        (r.x as int, r.y as int) == vnorm_s(v.x as int, v.y as int),
        abs_s(r.x as int) <= FX_ONE as int,
        abs_s(r.y as int) <= FX_ONE as int,
{
    let l = vec2length(v.x, v.y);
    if l == 0 {
        Vec2 { x: 0, y: 0 }
    } else {
        proof {
            lemma_sqrt_le(v.x as int, v.y as int, l as int);
            assert(abs_s(tdiv((v.x as int) * (FX_ONE as int), l as int)) <= FX_ONE as int && abs_s(
                tdiv((v.y as int) * (FX_ONE as int), l as int)) <= FX_ONE as int)
                by (nonlinear_arith)
                requires
                    l >= 1,
                    abs_s(v.x as int) <= l as int,
                    abs_s(v.y as int) <= l as int,
                    FX_ONE == 10000i64,
            ;
        }
        let nx = fx_div(v.x, l);
        let ny = fx_div(v.y, l);
        Vec2 { x: nx, y: ny }
    }
}

/// Distance between two points, rounded down.
pub fn vec2distance(a: Vec2, b: Vec2) -> (r: i64)
    requires
        abs_s(a.x as int) <= 0x800_0000_0000_0000,
        abs_s(a.y as int) <= 0x800_0000_0000_0000,
        abs_s(b.x as int) <= 0x800_0000_0000_0000,
        abs_s(b.y as int) <= 0x800_0000_0000_0000,
    ensures
        r as int == vlen_s(a.x - b.x, a.y - b.y),
        r >= 0,
{
    vec2length(a.x - b.x, a.y - b.y)
}

/// Distance from `p3` to the line through `p1` and `p2`, rounded down.
/// The ensured bound lets callers rescale the result without overflow.
#[verifier::rlimit(100)]
pub fn point_line_distance(p1: Vec2, p2: Vec2, p3: Vec2) -> (r: i64)
    requires
        abs_s(p1.x as int) <= 0x200_0000_0000_0000,
        abs_s(p1.y as int) <= 0x200_0000_0000_0000,
        abs_s(p2.x as int) <= 0x200_0000_0000_0000,
        abs_s(p2.y as int) <= 0x200_0000_0000_0000,
        abs_s(p3.x as int) <= 0x200_0000_0000_0000,
        abs_s(p3.y as int) <= 0x200_0000_0000_0000,
        p1 != p2,
    ensures
        r as int == pld_s(p1.x as int, p1.y as int, p2.x as int, p2.y as int, p3.x as int,
            p3.y as int),
        0 <= r as int <= 2 * (abs_s(p3.x - p1.x) + abs_s(p3.y - p1.y)) + 2,
{
    let ex: i64 = p2.x - p1.x;
    let ey: i64 = p2.y - p1.y;
    let fx_: i64 = p3.x - p1.x;
    let fy_: i64 = p3.y - p1.y;
    proof {
        lemma_mul_abs_le(ey as int, fx_ as int, 0x400_0000_0000_0000, 0x400_0000_0000_0000);
        lemma_mul_abs_le(ex as int, fy_ as int, 0x400_0000_0000_0000, 0x400_0000_0000_0000);
    }
    let cross: i128 = (ey as i128) * (fx_ as i128) - (ex as i128) * (fy_ as i128);
    let num: u128 = if cross >= 0 {
        cross as u128
    } else {
        (-cross) as u128
    };
    proof {
        assert(ex != 0 || ey != 0);
        assert((ex as int) * (ex as int) + (ey as int) * (ey as int) >= 1) by (nonlinear_arith)
            requires
                ex != 0 || ey != 0,
        ;
    }
    let le = vec2length(ex, ey);
    proof {
        lemma_cross_div_bound(ex as int, ey as int, fx_ as int, fy_ as int, le as int);
        assert(num as int == abs_s((ey as int) * (fx_ as int) - (ex as int) * (fy_ as int)));
    }
    let q = num / (le as u128);
    q as i64
}

/// Lagrange's identity for 2-vectors.
proof fn lemma_lagrange(a: int, b: int, c: int, d: int)
    ensures
        (b * c - a * d) * (b * c - a * d) + (a * c + b * d) * (a * c + b * d) == (a * a + b * b) * (
        c * c + d * d),
{
    let u = b * c;
    let v = a * d;
    let w = a * c;
    let z = b * d;
    let p = a * a;
    let q = b * b;
    let r = c * c;
    let s = d * d;
    assert((u - v) * (u - v) + (w + z) * (w + z) == u * u + v * v + w * w + z * z + 2 * (w * z - u
        * v)) by (nonlinear_arith);
    assert(w * z == u * v) by (nonlinear_arith)
        requires
            u == b * c,
            v == a * d,
            w == a * c,
            z == b * d,
    ;
    assert((p + q) * (r + s) == p * r + p * s + q * r + q * s) by (nonlinear_arith);
    assert(u * u == q * r) by (nonlinear_arith)
        requires
            u == b * c,
            q == b * b,
            r == c * c,
    ;
    assert(v * v == p * s) by (nonlinear_arith)
        requires
            v == a * d,
            p == a * a,
            s == d * d,
    ;
    assert(w * w == p * r) by (nonlinear_arith)
        requires
            w == a * c,
            p == a * a,
            r == c * c,
    ;
    assert(z * z == q * s) by (nonlinear_arith)
        requires
            z == b * d,
            q == b * b,
            s == d * d,
    ;
}

proof fn lemma_sq_lt(x: int, y: int)
    requires
        0 <= x,
        0 <= y,
        x * x < y * y,
    ensures
        x < y,
{
    assert(x < y) by (nonlinear_arith)
        requires
            0 <= x,
            0 <= y,
            x * x < y * y,
    ;
}

proof fn lemma_mul_lt(e: int, f: int, a: int, b: int)
    requires
        0 <= e < a,
        0 <= f < b,
    ensures
        e * f < a * b,
{
    assert(e * f < a * b) by (nonlinear_arith)
        requires
            0 <= e < a,
            0 <= f < b,
    ;
}

/// The cross product of an edge `(ex, ey)` with an offset `(px, py)`,
/// divided by the rounded edge length, is within twice the offset's reach.
proof fn lemma_cross_div_bound(ex: int, ey: int, px: int, py: int, le: int)
    requires
        is_sqrt(ex * ex + ey * ey, le),
        ex != 0 || ey != 0,
    ensures
        le >= 1,
        0 <= abs_s(ey * px - ex * py) / le <= 2 * (abs_s(px) + abs_s(py)) + 1,
{
    let c = ey * px - ex * py;
    let ee = ex * ex + ey * ey;
    let ff = px * px + py * py;
    let m = abs_s(px) + abs_s(py) + 1;
    assert(ee >= 1) by (nonlinear_arith)
        requires
            ee == ex * ex + ey * ey,
            ex != 0 || ey != 0,
    ;
    assert(ff >= 0) by (nonlinear_arith)
        requires
            ff == px * px + py * py,
    ;
    assert(le >= 1) by (nonlinear_arith)
        requires
            is_sqrt(ee, le),
            ee >= 1,
    ;
    lemma_lagrange(ex, ey, px, py);
    assert((ex * px + ey * py) * (ex * px + ey * py) >= 0) by (nonlinear_arith);
    assert(c * c <= ee * ff);
    assert(ff < m * m) by (nonlinear_arith)
        requires
            m == abs_s(px) + abs_s(py) + 1,
            ff == px * px + py * py,
    ;
    assert(ee < (le + 1) * (le + 1));
    lemma_mul_lt(ee, ff, (le + 1) * (le + 1), m * m);
    assert(((le + 1) * (le + 1)) * (m * m) == ((le + 1) * m) * ((le + 1) * m))
        by (nonlinear_arith);
    assert(c * c < ((le + 1) * m) * ((le + 1) * m));
    assert(abs_s(c) * abs_s(c) == c * c) by (nonlinear_arith);
    lemma_sq_lt(abs_s(c), (le + 1) * m);
    assert((le + 1) * m <= le * (2 * m)) by (nonlinear_arith)
        requires
            le >= 1,
            m >= 1,
    ;
    assert(abs_s(c) / le < 2 * m) by (nonlinear_arith)
        requires
            abs_s(c) < le * (2 * m),
            le >= 1,
    ;
    assert(abs_s(c) / le >= 0) by (nonlinear_arith)
        requires
            abs_s(c) >= 0,
            le >= 1,
    ;
}

} // verus!
