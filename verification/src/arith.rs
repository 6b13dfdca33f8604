//! Small arithmetic helpers: 16-bit saturation, wrap-around (mod `2^32`)
//! reasoning for the 32-bit accumulators, and an arithmetic right shift
//! written as floor division.

use vstd::arithmetic::div_mod::lemma_fundamental_div_mod;
use vstd::arithmetic::div_mod::lemma_fundamental_div_mod_converse;
use vstd::arithmetic::div_mod::lemma_mod_bound;
use vstd::arithmetic::div_mod::lemma_mod_multiples_vanish;
use vstd::prelude::*;
use vstd::wrapping::i32_specs;

use crate::MAX_SAMPLE;
use crate::MIN_SAMPLE;

verus! {

/// What a reconstructed value is once saturated to the signed 16-bit range.
pub open spec fn spec_clamp(s: int) -> int {
    if s > MAX_SAMPLE {
        MAX_SAMPLE as int
    } else if s < MIN_SAMPLE {
        MIN_SAMPLE as int
    } else {
        s
    }
}

/// Saturates a pre-clamp reconstruction sum to the signed 16-bit range:
/// values above `MAX_SAMPLE` become `MAX_SAMPLE`, values below `MIN_SAMPLE`
/// become `MIN_SAMPLE`, and everything in between is returned unchanged.
pub fn clamp(n: i32) -> (r: i32)
    ensures
        r == spec_clamp(n as int),
        MIN_SAMPLE <= r <= MAX_SAMPLE,
{
    if n > MAX_SAMPLE {
        MAX_SAMPLE
    } else if n < MIN_SAMPLE {
        MIN_SAMPLE
    } else {
        n
    }
}

/// The residue mod `2^32` of a value that already lies in `[0, 2^32)`.
proof fn lemma_mod_id(x: int)
    requires
        0 <= x < 0x1_0000_0000,
    ensures
        x % 0x1_0000_0000 == x,
{
    lemma_fundamental_div_mod_converse(x, 0x1_0000_0000, 0, x);
}

/// The residue mod `2^32` of a value one turn below `[0, 2^32)`.
proof fn lemma_mod_one_up(x: int)
    requires
        -0x1_0000_0000 <= x < 0,
    ensures
        x % 0x1_0000_0000 == x + 0x1_0000_0000,
{
    lemma_fundamental_div_mod_converse(x, 0x1_0000_0000, -1, x + 0x1_0000_0000);
}

/// A value already in `i32` range is its own image under `signed_crop`.
pub proof fn lemma_crop_small(x: int)
    requires
        i32::MIN <= x <= i32::MAX,
    ensures
        i32_specs::signed_crop(x) == x,
{
    if x >= 0 {
        lemma_mod_id(x);
    } else {
        lemma_mod_one_up(x);
    }
}

/// Adding a cropped value in place of the value itself does not change the
/// crop of a sum: `signed_crop` only looks at the residue mod `2^32`.
pub proof fn lemma_crop_absorb(a: int, x: int)
    ensures
        i32_specs::signed_crop(a + i32_specs::signed_crop(x)) == i32_specs::signed_crop(a + x),
{
    let r = 0x1_0000_0000int;
    lemma_fundamental_div_mod(x, r);
    lemma_mod_bound(x, r);
    let q = x / r;
    if x % r > i32::MAX {
        assert(a + i32_specs::signed_crop(x) == r * (-q - 1) + (a + x)) by {
            assert(i32_specs::signed_crop(x) == x % r - r);
        };
        lemma_mod_multiples_vanish(-q - 1, a + x, r);
    } else {
        assert(a + i32_specs::signed_crop(x) == r * (-q) + (a + x)) by {
            assert(i32_specs::signed_crop(x) == x % r);
        };
        lemma_mod_multiples_vanish(-q, a + x, r);
    }
}

/// `wrapping_add` on `i32` computes the crop of the exact sum.
pub proof fn lemma_wadd_is_crop(a: i32, b: i32)
    ensures
        i32_specs::wrapping_add(a, b) == i32_specs::signed_crop(a + b),
{
    let s = a + b;
    if s > i32::MAX {
        lemma_mod_id(s);
    } else if s < i32::MIN {
        lemma_mod_one_up(s);
    } else {
        lemma_crop_small(s);
    }
}

/// `wrapping_sub` on `i32` computes the crop of the exact difference.
pub proof fn lemma_wsub_is_crop(a: i32, b: i32)
    ensures
        i32_specs::wrapping_sub(a, b) == i32_specs::signed_crop(a - b),
{
    let s = a - b;
    if s > i32::MAX {
        lemma_mod_id(s);
    } else if s < i32::MIN {
        lemma_mod_one_up(s);
    } else {
        lemma_crop_small(s);
    }
}

/// Arithmetic right shift by `DELTA_BITS`: floor division by `2^15`, also
/// for negative values.
pub fn shift_down_15(x: i32) -> (r: i32)
    ensures
        r as int == (x as int) / 0x8000,
        -0x1_0000 <= r < 0x1_0000,
{
    let biased: u32 = ((x as i64) + 0x8000_0000i64) as u32;
    let q: u32 = biased / 0x8000;
    proof {
        lemma_fundamental_div_mod(x as int, 0x8000);
        lemma_mod_bound(x as int, 0x8000);
        lemma_fundamental_div_mod_converse(
            x + 0x8000_0000,
            0x8000,
            (x as int) / 0x8000 + 0x1_0000,
            (x as int) % 0x8000,
        );
    }
    (q as i32) - 0x1_0000
}

} // verus!
