//! Grid geometry: how many frames the source grid holds, and the smallest
//! destination grid of the chosen row width that fits them all.

use vstd::prelude::*;

verus! {

/// Integer ceiling division of `a` by `b`: the quotient, rounded up whenever
/// there is a fractional remainder.
pub open spec fn div_ceil_int(a: int, b: int) -> int
    recommends
        b > 0,
{
    a / b + (if a % b == 0 {
        0int
    } else {
        1int
    })
}

/// `div_ceil_int(a, b)` is the least `q` with `a <= q * b`: the destination
/// grid it sizes is the minimal one that fits all frames.
pub proof fn lemma_div_ceil_minimal(a: int, b: int)
    requires
        0 <= a,
        0 < b,
    ensures
        a <= div_ceil_int(a, b) * b,
        (div_ceil_int(a, b) - 1) * b < a,
{
    let q = a / b;
    let r = a % b;
    vstd::arithmetic::div_mod::lemma_fundamental_div_mod(a, b);
    assert(0 <= r < b) by {
        vstd::arithmetic::div_mod::lemma_mod_division_less_than_divisor(a, b);
    }
    assert(0 <= q) by {
        vstd::arithmetic::div_mod::lemma_div_pos_is_pos(a, b);
    }
    if r == 0 {
        assert(q * b == b * q) by {
            vstd::arithmetic::mul::lemma_mul_is_commutative(q, b);
        }
        assert((q - 1) * b == q * b - b) by {
            vstd::arithmetic::mul::lemma_mul_is_distributive_sub_other_way(b, q, 1);
        }
    } else {
        assert((q + 1) * b == q * b + b && q * b == b * q) by {
            vstd::arithmetic::mul::lemma_mul_is_distributive_add_other_way(b, q, 1);
            vstd::arithmetic::mul::lemma_mul_is_commutative(q, b);
        }
    }
}

/// Frames per source row: how many whole frames of width `fw` fit across a
/// source of width `sw`; remainder pixels are dropped.
pub open spec fn spec_src_frames_x(sw: int, fw: int) -> int {
    sw / fw
}

/// Frames per source column: how many whole frames of height `fh` fit down a
/// source of height `sh`; remainder pixels are dropped.
pub open spec fn spec_src_frames_y(sh: int, fh: int) -> int {
    sh / fh
}

/// How many frames the source grid holds in all.
pub open spec fn spec_total_frames(sw: int, sh: int, fw: int, fh: int) -> int {
    spec_src_frames_x(sw, fw) * spec_src_frames_y(sh, fh)
}

/// Frames per destination row: the caller's override if present, else the
/// source's own row width.
pub open spec fn spec_dest_frames_x(sw: int, fw: int, frames_per_row: Option<u32>) -> int {
    match frames_per_row {
        Some(n) => n as int,
        None => spec_src_frames_x(sw, fw),
    }
}

/// Destination rows: the least number of rows of the chosen width that fit
/// every source frame.
pub open spec fn spec_dest_frames_y(
    sw: int,
    sh: int,
    fw: int,
    fh: int,
    frames_per_row: Option<u32>,
) -> int {
    div_ceil_int(spec_total_frames(sw, sh, fw, fh), spec_dest_frames_x(sw, fw, frames_per_row))
}

/// Source and destination grid dimensions, in frames.
#[derive(Clone, Copy, Debug, PartialEq, Eq, Structural)]
pub struct Geometry {
    pub src_frames_x: u32,
    pub src_frames_y: u32,
    pub dest_frames_x: u32,
    pub dest_frames_y: u32,
}

/// What `compute_geometry` returns: each grid dimension pinned to its spec.
pub open spec fn geometry_matches(
    g: Geometry,
    sw: int,
    sh: int,
    fw: int,
    fh: int,
    frames_per_row: Option<u32>,
) -> bool {
    &&& g.src_frames_x == spec_src_frames_x(sw, fw)
    &&& g.src_frames_y == spec_src_frames_y(sh, fh)
    &&& g.dest_frames_x == spec_dest_frames_x(sw, fw, frames_per_row)
    &&& g.dest_frames_y == spec_dest_frames_y(sw, sh, fw, fh, frames_per_row)
}

/// Computes source grid dimensions and destination grid dimensions from the
/// source size, the frame size, and an optional frames-per-row override.
pub fn compute_geometry(
    source_width: u32,
    source_height: u32,
    frame_width: u32,
    frame_height: u32,
    frames_per_row: Option<u32>,
) -> (g: Geometry)
    requires
        0 < frame_width <= source_width,
        0 < frame_height <= source_height,
        frames_per_row matches Some(n) ==> n > 0,
        spec_total_frames(
            source_width as int,
            source_height as int,
            frame_width as int,
            frame_height as int,
        ) <= u32::MAX,
    ensures
        geometry_matches(
            g,
            source_width as int,
            source_height as int,
            frame_width as int,
            frame_height as int,
            frames_per_row,
        ),
{
    let src_frames_x = source_width / frame_width;
    let src_frames_y = source_height / frame_height;
    let total_frames = src_frames_x * src_frames_y;
    let dest_frames_x = match frames_per_row {
        Some(num) => num,
        None => src_frames_x,
    };
    proof {
        vstd::arithmetic::div_mod::lemma_div_non_zero(source_width as int, frame_width as int);
    }
    let dest_frames_y = div_ceil(total_frames, dest_frames_x);
    Geometry { src_frames_x, src_frames_y, dest_frames_x, dest_frames_y }
}

/// Geometry determinism: the grid dimensions are a pure function of the
/// source size, the frame size and the override — two geometries computed
/// from identical inputs are identical.
pub proof fn lemma_geometry_deterministic(
    g1: Geometry,
    g2: Geometry,
    sw: int,
    sh: int,
    fw: int,
    fh: int,
    frames_per_row: Option<u32>,
)
    requires
        geometry_matches(g1, sw, sh, fw, fh, frames_per_row),
        geometry_matches(g2, sw, sh, fw, fh, frames_per_row),
    ensures
        g1 == g2,
{
}

/// Frame conservation: the destination grid has at least one cell per source
/// frame, so no frame is ever lost or placed out of grid bounds.
pub proof fn lemma_frame_conservation(
    sw: int,
    sh: int,
    fw: int,
    fh: int,
    frames_per_row: Option<u32>,
)
    requires
        0 < fw <= sw,
        0 < fh <= sh,
        0 < spec_dest_frames_x(sw, fw, frames_per_row),
    ensures
        spec_total_frames(sw, sh, fw, fh) <= spec_dest_frames_x(sw, fw, frames_per_row)
            * spec_dest_frames_y(sw, sh, fw, fh, frames_per_row),
{
    lemma_dest_grid_minimal(sw, sh, fw, fh, frames_per_row);
}

/// Ceiling correctness: the destination grid fits every frame, and it is the
/// minimal such grid for the chosen row width — one row fewer would not fit.
pub proof fn lemma_dest_grid_minimal(
    sw: int,
    sh: int,
    fw: int,
    fh: int,
    frames_per_row: Option<u32>,
)
    requires
        0 < fw <= sw,
        0 < fh <= sh,
        0 < spec_dest_frames_x(sw, fw, frames_per_row),
    ensures
        spec_dest_frames_y(sw, sh, fw, fh, frames_per_row) * spec_dest_frames_x(
            sw,
            fw,
            frames_per_row,
        ) >= spec_total_frames(sw, sh, fw, fh),
        (spec_dest_frames_y(sw, sh, fw, fh, frames_per_row) - 1) * spec_dest_frames_x(
            sw,
            fw,
            frames_per_row,
        ) < spec_total_frames(sw, sh, fw, fh),
{
    let total = spec_total_frames(sw, sh, fw, fh);
    let dfx = spec_dest_frames_x(sw, fw, frames_per_row);
    assert(0 <= total) by {
        vstd::arithmetic::div_mod::lemma_div_pos_is_pos(sw, fw);
        vstd::arithmetic::div_mod::lemma_div_pos_is_pos(sh, fh);
        vstd::arithmetic::mul::lemma_mul_nonnegative(
            spec_src_frames_x(sw, fw),
            spec_src_frames_y(sh, fh),
        );
    }
    lemma_div_ceil_minimal(total, dfx);
}

/// Divides two unsigned integers, always rounding up if there is a fractional
/// remainder.
pub fn div_ceil(dividend: u32, divisor: u32) -> (r: u32)
    requires
        divisor > 0,
    ensures
        r == div_ceil_int(dividend as int, divisor as int),
{
    let q = dividend / divisor;
    if dividend % divisor != 0 {
        proof {
            vstd::arithmetic::div_mod::lemma_fundamental_div_mod(
                dividend as int,
                divisor as int,
            );
            assert(2 * (q as int) <= (divisor as int) * (q as int)) by (nonlinear_arith)
                requires
                    divisor as int >= 2,
                    q as int >= 0,
            ;
        }
        q + 1
    } else {
        q
    }
}

} // verus!
