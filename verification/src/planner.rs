//! Computes the smallest square canvas whose channel-byte capacity holds a
//! payload of a given length.

use vstd::prelude::*;

verus! {

use crate::options::ImageColor;

/// Largest side length a canvas may have, squared: the largest per-channel
/// capacity a square canvas with `u32` sides can reach.
pub open spec fn max_side_squared() -> nat {
    (u32::MAX as nat) * (u32::MAX as nat)
}

/// Channel bytes per pixel for each color format.
pub open spec fn spec_num_components(c: ImageColor) -> nat {
    match c {
        ImageColor::Gray => 1,
        ImageColor::GrayA => 2,
        ImageColor::Rgb => 3,
        ImageColor::RgbA => 4,
    }
}

/// How many channel bytes one pixel of color format `c` stores.
pub fn num_components(c: ImageColor) -> (n: u32)
    ensures
        n == spec_num_components(c),
{
    match c {
        ImageColor::Gray => 1,
        ImageColor::GrayA => 2,
        ImageColor::Rgb => 3,
        ImageColor::RgbA => 4,
    }
}

/// What the planner owes: `side` is the smallest side whose square canvas
/// holds `len` channel bytes at format `c`. The last clause pins minimality,
/// and for `len == 0` it forces `side == 1`: a zero-area canvas is invalid
/// for the container codec.
pub open spec fn is_planned_side(side: nat, len: nat, color: ImageColor) -> bool {
    &&& side >= 1
    &&& side * side * spec_num_components(color) >= len
    &&& (side > 1 ==> (side - 1) * (side - 1) * spec_num_components(color) < len)
}

/// The side the planner owes `len` payload bytes at format `color`. It is
/// well defined: a planned side exists for every length
/// (`lemma_planned_side_exists`) and no two differ
/// (`lemma_planned_side_unique`).
pub open spec fn spec_planned_side(len: nat, color: ImageColor) -> nat {
    choose|side: nat| is_planned_side(side, len, color)
}

/// No two sides satisfy the planner's obligation for the same length and
/// format: a smaller one lacks capacity, a larger one is not minimal.
pub proof fn lemma_planned_side_unique(a: nat, b: nat, len: nat, color: ImageColor)
    requires
        is_planned_side(a, len, color),
        is_planned_side(b, len, color),
    ensures
        a == b,
{
    let c = spec_num_components(color);
    if a < b {
        assert(false) by (nonlinear_arith)
            requires
                1 <= a < b,
                a * a * c >= len,
                (b - 1) * (b - 1) * c < len,
        ;
    }
    if b < a {
        assert(false) by (nonlinear_arith)
            requires
                1 <= b < a,
                b * b * c >= len,
                (a - 1) * (a - 1) * c < len,
        ;
    }
}

/// Below any side with enough capacity sits a planned side: walking down
/// from it, the first side whose predecessor lacks capacity is minimal.
proof fn lemma_planned_side_below(s0: nat, len: nat, color: ImageColor)
    requires
        s0 >= 1,
        s0 * s0 * spec_num_components(color) >= len,
    ensures
        exists|side: nat| #[trigger] is_planned_side(side, len, color),
    decreases s0,
{
    let c = spec_num_components(color);
    if s0 == 1 {
        assert(is_planned_side(1, len, color));
    } else if (s0 - 1) * (s0 - 1) * c < len {
        assert(is_planned_side(s0, len, color));
    } else {
        lemma_planned_side_below((s0 - 1) as nat, len, color);
    }
}

/// Capacity sufficiency and minimality hold of the planned side for every
/// payload length and every format: `spec_planned_side` meets
/// `is_planned_side`, with no bound on the length. The executable planner
/// returns this side whenever it fits a `u32`.
pub proof fn lemma_planned_side_exists(len: nat, color: ImageColor)
    ensures
        is_planned_side(spec_planned_side(len, color), len, color),
{
    let c = spec_num_components(color);
    if len == 0 {
        assert(is_planned_side(1, len, color));
    } else {
        assert(len * len * c >= len) by (nonlinear_arith)
            requires
                len >= 1,
                c >= 1,
        ;
        lemma_planned_side_below(len, len, color);
    }
    assert(exists|side: nat| #[trigger] is_planned_side(side, len, color));
}

/// Smallest `s` with `s * s >= n`, for `1 <= n <= max_side_squared()`.
fn ceil_sqrt(n: u64) -> (s: u64)
    requires
        1 <= n <= max_side_squared(),
    ensures
        1 <= s <= u32::MAX,
        s * s >= n,
        (s - 1) * (s - 1) < n,
{
    let mut lo: u64 = 0;
    let mut hi: u64 = 0xffff_ffff;
    proof {
        assert(hi * hi == max_side_squared()) by (nonlinear_arith)
            requires
                hi == 0xffff_ffffu64,
        ;
    }
    while lo + 1 < hi
        invariant
            lo < hi <= 0xffff_ffff,
            lo * lo < n,
            hi * hi >= n,
        decreases hi - lo,
    {
        let mid: u64 = lo + (hi - lo) / 2;
        assert(lo < mid < hi);
        assert(mid * mid <= 0xffff_fffe_0000_0001) by (nonlinear_arith)
            requires
                mid <= 0xffff_ffff,
        ;
        if mid * mid >= n {
            hi = mid;
        } else {
            lo = mid;
        }
    }
    assert(lo + 1 == hi);
    hi
}

/// The side length of the smallest square canvas whose capacity in channel
/// bytes (`side * side * components`) is at least `data_len`; both entries of
/// the pair are that side. A zero-length payload still gets a 1-by-1 canvas:
/// a zero-area image is invalid for the container codec.
pub fn img_dimensions(data_len: usize, color: ImageColor) -> (dims: (u32, u32))
    requires
        data_len <= spec_num_components(color) * max_side_squared(),
    ensures
        dims.0 == dims.1,
        dims.0 >= 1,
        dims.0 * dims.0 * spec_num_components(color) >= data_len,
        dims.0 > 1 ==> (dims.0 - 1) * (dims.0 - 1) * spec_num_components(color) < data_len,
        data_len == 0 ==> dims.0 == 1,
        dims.0 == spec_planned_side(data_len as nat, color),
{
    if data_len == 0 {
        proof {
            assert(is_planned_side(1, 0, color));
            lemma_planned_side_exists(0, color);
            lemma_planned_side_unique(1, spec_planned_side(0, color), 0, color);
        }
        return (1, 1);
    }
    let c = num_components(color);
    let required: u64 = ((data_len - 1) / (c as usize) + 1) as u64;
    proof {
        let l = data_len as int;
        let ci = c as int;
        let q = (l - 1) / ci;
        let r = (l - 1) % ci;
        vstd::arithmetic::div_mod::lemma_fundamental_div_mod(l - 1, ci);
        vstd::arithmetic::div_mod::lemma_mod_bound(l - 1, ci);
        assert(q + 1 <= max_side_squared()) by (nonlinear_arith)
            requires
                l - 1 == ci * q + r,
                0 <= r < ci,
                1 <= l <= ci * max_side_squared(),
        ;
    }
    let s = ceil_sqrt(required);
    proof {
        let l = data_len as int;
        let ci = c as int;
        let q = (l - 1) / ci;
        let r = (l - 1) % ci;
        vstd::arithmetic::div_mod::lemma_fundamental_div_mod(l - 1, ci);
        vstd::arithmetic::div_mod::lemma_mod_bound(l - 1, ci);
        assert(s * s * ci >= l) by (nonlinear_arith)
            requires
                s * s >= q + 1,
                l - 1 == ci * q + r,
                0 <= r < ci,
        ;
        assert(s > 1 ==> (s - 1) * (s - 1) * ci < l) by (nonlinear_arith)
            requires
                (s - 1) * (s - 1) < q + 1,
                l - 1 == ci * q + r,
                0 <= r < ci,
        ;
        assert(is_planned_side(s as nat, data_len as nat, color));
        lemma_planned_side_exists(data_len as nat, color);
        lemma_planned_side_unique(
            s as nat,
            spec_planned_side(data_len as nat, color),
            data_len as nat,
            color,
        );
    }
    (s as u32, s as u32)
}

} // verus!
