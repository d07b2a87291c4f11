//! Sprite-sheet planning data: the description of one sprite source and
//! the integer plan of the packing pass (sheet start size, split point).
//! Image decoding, rectangle packing and texture upload live outside the
//! simulation core.

use vstd::prelude::*;
use crate::fx::{Vec2, is_sqrt, sqrt_s, isqrt, lemma_sqrt_unique};

verus! {

/// A color key (red, green, blue, alpha).
#[derive(Clone, Copy, PartialEq, Eq, Structural, Debug)]
pub struct Color {
    pub r: u8,
    pub g: u8,
    pub b: u8,
    pub a: u8,
}

/// Description of one sprite source: its file's path as text, the pixel
/// ratio (a fixed-point 2-vector), and an optional color key.
pub struct SpriteInfo {
    pub filename: String,
    pub pixel_ratio: Vec2,
    pub color_key: Option<Color>,
}

impl SpriteInfo {
    /// Bundle a sprite source description.
    pub fn new(filename: String, pixel_ratio: Vec2, color_key: Option<Color>) -> (r: SpriteInfo)
        ensures
            r.filename == filename,
            r.pixel_ratio == pixel_ratio,
            r.color_key == color_key,
    {
        SpriteInfo { filename, pixel_ratio, color_key }
    }
}

/// The starting sheet side for a set of rectangles: the least power of two
/// at least the square root of the total area, so a near-square sheet is
/// tried first.
pub fn sheet_start_size(area: u64) -> (r: u64)
    requires
        area < 0x4000_0000_0000_0000,
    ensures
        r >= 1,
        (r as int) * (r as int) >= area as int || r >= 0x4000_0000_0000_0000,
        r > 1 ==> ((r as int) / 2) * ((r as int) / 2) < area as int,
        exists|k: nat| r as int == #[trigger] vstd::arithmetic::power2::pow2(k),
{
    let root = isqrt(area as u128);
    proof {
        assert((root as int) * (root as int) <= area as int);
        assert(root <= 0x8000_0000) by (nonlinear_arith)
            requires
                is_sqrt(area as int, root as int),
                (area as int) < 0x4000_0000_0000_0000,
        ;
    }
    let ceil_root: u64 = if (root as u128) * (root as u128) == area as u128 {
        root
    } else {
        root + 1
    };
    let mut r: u64 = 1;
    proof {
        vstd::arithmetic::power2::lemma2_to64();
        assert(r as int == vstd::arithmetic::power2::pow2(0));
    }
    while r < ceil_root && r < 0x4000_0000_0000_0000
        invariant
            1 <= r <= 0x8000_0000_0000_0000,
            r > 1 ==> (r as int) / 2 < ceil_root as int,
            ceil_root as int == (if (root as int) * (root as int) == area as int {
                root as int
            } else {
                root as int + 1
            }),
            is_sqrt(area as int, root as int),
            exists|k: nat| r as int == #[trigger] vstd::arithmetic::power2::pow2(k),
        decreases 0x8000_0000_0000_0000 - r,
    {
        proof {
            let k = choose|k: nat| r as int == vstd::arithmetic::power2::pow2(k);
            vstd::arithmetic::power2::lemma_pow2_unfold((k + 1) as nat);
            assert(2 * r as int == vstd::arithmetic::power2::pow2((k + 1) as nat));
        }
        r = r * 2;
    }
    proof {
        if r < 0x4000_0000_0000_0000 {
            assert(r >= ceil_root);
            assert((ceil_root as int) * (ceil_root as int) >= area as int) by (nonlinear_arith)
                requires
                    is_sqrt(area as int, root as int),
                    ceil_root as int == if (root as int) * (root as int) == area as int {
                        root as int
                    } else {
                        root as int + 1
                    },
            ;
            assert((r as int) * (r as int) >= area as int) by (nonlinear_arith)
                requires
                    r >= ceil_root,
                    ceil_root >= 0,
                    (ceil_root as int) * (ceil_root as int) >= area as int,
            ;
        }
        if r > 1 {
            assert(((r as int) / 2) * ((r as int) / 2) < area as int) by (nonlinear_arith)
                requires
                    (r as int) / 2 < (if (root as int) * (root as int) == area as int {
                        root as int
                    } else {
                        root as int + 1
                    }),
                    is_sqrt(area as int, root as int),
                    (r as int) / 2 >= 0,
            ;
        }
    }
    r
}

/// The area of the first `n` entries.
pub open spec fn area_prefix_s(s: Seq<u64>, n: int) -> int
    decreases n,
{
    if n <= 0 {
        0
    } else {
        area_prefix_s(s, n - 1) + s[n - 1]
    }
}

/// Where to split a rectangle run whose total area overflows one sheet:
/// the first index at which the running area reaches half the total, so
/// each half packs on its own sheet. Mirrors a greedy half-area scan.
pub fn pack_split_point(areas: &Vec<u64>, total: u64) -> (r: usize)
    requires
        areas@.len() >= 2,
        forall|i: int| 0 <= i < areas@.len() ==> (#[trigger] areas@[i]) < 0x1_0000_0000,
        areas@.len() < 0x1_0000_0000,
    ensures
        1 <= r < areas@.len(),
        area_prefix_s(areas@, r as int) >= total as int / 2 || r as int == areas@.len() - 1,
        forall|j: int| 1 <= j < r ==> area_prefix_s(areas@, j) < total as int / 2,
{
    let half = total / 2;
    let mut acc: u64 = 0;
    let mut i: usize = 0;
    while acc < half && i < areas.len() - 1
        invariant
            i <= areas@.len() - 1,
            areas@.len() >= 2,
            acc <= 0x1_0000_0000 * (i as int),
            acc as int == area_prefix_s(areas@, i as int),
            forall|j: int| 0 <= j < i ==> area_prefix_s(areas@, j) < half as int,
            half == total / 2,
            forall|t: int| 0 <= t < areas@.len() ==> (#[trigger] areas@[t]) < 0x1_0000_0000,
            areas@.len() < 0x1_0000_0000,
        decreases areas@.len() - i,
    {
        proof {
            assert(acc + areas@[i as int] <= 0x1_0000_0000 * (i as int + 1)) by (nonlinear_arith)
                requires
                    acc <= 0x1_0000_0000 * (i as int),
                    areas@[i as int] < 0x1_0000_0000,
            ;
            assert(0x1_0000_0000 * (i as int + 1) < 0x1_0000_0000 * 0x1_0000_0000)
                by (nonlinear_arith)
                requires
                    i as int + 1 < 0x1_0000_0000,
            ;
        }
        acc = acc + areas[i];
        i = i + 1;
    }
    if i == 0 {
        proof {
            assert(area_prefix_s(areas@, 0) == 0);
            assert(half == 0);
            assert(area_prefix_s(areas@, 1) == areas@[0]);
        }
        1
    } else {
        i
    }
}

} // verus!
