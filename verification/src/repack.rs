//! The driver: computes the geometry once, allocates the destination canvas,
//! and walks the source grid — outer loop over source columns, inner loop
//! over source rows — copying one frame per step into its destination cell.

use vstd::prelude::*;
use image::DynamicImage;
use crate::copier::copy_frame;
use crate::copier::copy_rect;
use crate::geometry::compute_geometry;
use crate::geometry::div_ceil_int;
use crate::geometry::geometry_matches;
use crate::geometry::lemma_div_ceil_minimal;
use crate::geometry::lemma_frame_conservation;
use crate::geometry::spec_dest_frames_x;
use crate::geometry::spec_dest_frames_y;
use crate::geometry::spec_src_frames_x;
use crate::geometry::spec_src_frames_y;
use crate::geometry::spec_total_frames;
use crate::indexer::in_rect;
use crate::indexer::lemma_rect_pixel_determines_frame;
use crate::indexer::source_coord_to_dest_offset;
use crate::indexer::spec_dest_grid_x;
use crate::indexer::spec_dest_grid_y;
use crate::indexer::spec_dest_offset_x;
use crate::indexer::spec_dest_offset_y;
use crate::indexer::spec_frames_processed;
use crate::raster::Canvas;
use crate::raster::canvas_height;
use crate::raster::canvas_into_image;
use crate::raster::canvas_pixels;
use crate::raster::canvas_width;
use crate::raster::dyn_get_height;
use crate::raster::dyn_get_width;
use crate::raster::dyn_height;
use crate::raster::dyn_pixels;
use crate::raster::dyn_width;
use crate::raster::pixel_dom;
use crate::raster::zero_pixels;

verus! {

/// Why a repack was refused.
#[derive(Clone, Copy, Debug, PartialEq, Eq, Structural)]
pub enum RepackError {
    /// The frame width or height exceeds the source image's dimensions.
    FrameLargerThanSource,
    /// A grid dimension or the destination canvas would not fit the machine's
    /// integer limits.
    CanvasTooLarge,
}

/// Source pixel offset, horizontal, of the frame with linear index `f`.
pub open spec fn spec_source_offset_x(f: int, sh: int, fh: int, fw: int) -> int {
    (f / spec_src_frames_y(sh, fh)) * fw
}

/// Source pixel offset, vertical, of the frame with linear index `f`.
pub open spec fn spec_source_offset_y(f: int, sh: int, fh: int) -> int {
    (f % spec_src_frames_y(sh, fh)) * fh
}

/// The source pixel that lands at position `(i, j)` inside the destination
/// cell of the frame with linear index `f`.
pub open spec fn spec_source_pixel(f: int, sh: int, fh: int, fw: int, i: int, j: int) -> (
    int,
    int,
) {
    (spec_source_offset_x(f, sh, fh, fw) + i, spec_source_offset_y(f, sh, fh) + j)
}

/// The destination pixel map after the first `k` frames, in linear order,
/// have been copied: a pixel in the cell of a copied frame holds that frame's
/// source pixel, every other pixel still holds the zero background.
pub open spec fn repacked_upto(
    src: Map<(int, int), (u8, u8, u8, u8)>,
    sw: int,
    sh: int,
    fw: int,
    fh: int,
    dfx: int,
    k: int,
) -> Map<(int, int), (u8, u8, u8, u8)> {
    let dw = dfx * fw;
    let dh = div_ceil_int(spec_total_frames(sw, sh, fw, fh), dfx) * fh;
    Map::new(
        |p: (int, int)| 0 <= p.0 < dw && 0 <= p.1 < dh,
        |p: (int, int)|
            {
                let f = (p.1 / fh) * dfx + p.0 / fw;
                if f < k {
                    src[spec_source_pixel(f, sh, fh, fw, p.0 % fw, p.1 % fh)]
                } else {
                    (0u8, 0u8, 0u8, 0u8)
                }
            },
    )
}

/// The complete repacked destination image: every source frame copied.
pub open spec fn repacked_pixels(
    src: Map<(int, int), (u8, u8, u8, u8)>,
    sw: int,
    sh: int,
    fw: int,
    fh: int,
    dfx: int,
) -> Map<(int, int), (u8, u8, u8, u8)> {
    repacked_upto(src, sw, sh, fw, fh, dfx, spec_total_frames(sw, sh, fw, fh))
}

/// Whether the destination grid and canvas fit the machine's integer limits:
/// the frame count and both canvas dimensions fit `u32`, and the canvas's
/// byte length fits `usize`.
pub open spec fn canvas_fits(
    sw: int,
    sh: int,
    fw: int,
    fh: int,
    frames_per_row: Option<u32>,
) -> bool {
    let total = spec_total_frames(sw, sh, fw, fh);
    let dfx = spec_dest_frames_x(sw, fw, frames_per_row);
    let dfy = spec_dest_frames_y(sw, sh, fw, fh, frames_per_row);
    &&& total <= u32::MAX
    &&& dfx * fw <= u32::MAX
    &&& dfy * fh <= u32::MAX
    &&& 4 * (dfx * fw) * (dfy * fh) <= usize::MAX
}

/// A canvas-rectangle pixel decomposes by frame size: its cell column is
/// `px / fw`, its cell row is `py / fh`, and both lie inside the grid.
proof fn lemma_point_cell(px: int, py: int, dfx: int, dfy: int, fw: int, fh: int)
    requires
        0 < dfx,
        0 < dfy,
        0 < fw,
        0 < fh,
        0 <= px < dfx * fw,
        0 <= py < dfy * fh,
    ensures
        0 <= px / fw < dfx,
        0 <= py / fh < dfy,
        px == (px / fw) * fw + px % fw,
        0 <= px % fw < fw,
        py == (py / fh) * fh + py % fh,
        0 <= py % fh < fh,
{
    vstd::arithmetic::div_mod::lemma_fundamental_div_mod(px, fw);
    vstd::arithmetic::div_mod::lemma_fundamental_div_mod(py, fh);
    vstd::arithmetic::div_mod::lemma_mod_division_less_than_divisor(px, fw);
    vstd::arithmetic::div_mod::lemma_mod_division_less_than_divisor(py, fh);
    vstd::arithmetic::div_mod::lemma_div_pos_is_pos(px, fw);
    vstd::arithmetic::div_mod::lemma_div_pos_is_pos(py, fh);
    vstd::arithmetic::mul::lemma_mul_is_commutative(px / fw, fw);
    vstd::arithmetic::mul::lemma_mul_is_commutative(py / fh, fh);
    assert(px < fw * dfx) by {
        vstd::arithmetic::mul::lemma_mul_is_commutative(dfx, fw);
    }
    assert(py < fh * dfy) by {
        vstd::arithmetic::mul::lemma_mul_is_commutative(dfy, fh);
    }
    vstd::arithmetic::div_mod::lemma_multiply_divide_lt(px, fw, dfx);
    vstd::arithmetic::div_mod::lemma_multiply_divide_lt(py, fh, dfy);
}

/// One canvas pixel, one copy step: copying the cell of frame `f` onto the
/// canvas that holds the first `f` frames gives, at this pixel, the canvas
/// that holds the first `f + 1` frames.
proof fn lemma_repack_point(
    src: Map<(int, int), (u8, u8, u8, u8)>,
    sw: int,
    sh: int,
    fw: int,
    fh: int,
    dfx: int,
    f: int,
    px: int,
    py: int,
)
    requires
        0 < fw <= sw,
        0 < fh <= sh,
        0 < dfx,
        0 <= f < spec_total_frames(sw, sh, fw, fh),
        0 <= px < dfx * fw,
        0 <= py < div_ceil_int(spec_total_frames(sw, sh, fw, fh), dfx) * fh,
    ensures
        copy_rect(
            src,
            repacked_upto(src, sw, sh, fw, fh, dfx, f),
            dfx * fw,
            div_ceil_int(spec_total_frames(sw, sh, fw, fh), dfx) * fh,
            spec_source_offset_x(f, sh, fh, fw),
            spec_source_offset_y(f, sh, fh),
            spec_dest_offset_x(f, dfx, fw),
            spec_dest_offset_y(f, dfx, fh),
            fw,
            fh,
        )[(px, py)] == repacked_upto(src, sw, sh, fw, fh, dfx, f + 1)[(px, py)],
{
    let total = spec_total_frames(sw, sh, fw, fh);
    let dfy = div_ceil_int(total, dfx);
    lemma_div_ceil_minimal(total, dfx);
    assert(dfy >= 1) by (nonlinear_arith)
        requires
            total <= dfy * dfx,
            total >= 1,
            dfx >= 1,
    ;
    let gx = px / fw;
    let gy = py / fh;
    lemma_point_cell(px, py, dfx, dfy, fw, fh);
    let fp = gy * dfx + gx;
    let dox = spec_dest_offset_x(f, dfx, fw);
    let doy = spec_dest_offset_y(f, dfx, fh);
    vstd::arithmetic::div_mod::lemma_fundamental_div_mod(f, dfx);
    vstd::arithmetic::div_mod::lemma_mod_division_less_than_divisor(f, dfx);
    vstd::arithmetic::div_mod::lemma_div_pos_is_pos(f, dfx);
    if in_rect((px, py), dox, doy, fw, fh) {
        lemma_rect_pixel_determines_frame(f, dfx, fw, fh, px, py);
        assert(fp == f) by {
            vstd::arithmetic::mul::lemma_mul_is_commutative(f / dfx, dfx);
        }
    } else {
        if fp == f {
            vstd::arithmetic::div_mod::lemma_fundamental_div_mod_converse_mod(f, dfx, gy, gx);
            vstd::arithmetic::div_mod::lemma_fundamental_div_mod_converse_div(f, dfx, gy, gx);
            assert(in_rect((px, py), dox, doy, fw, fh));
            assert(false);
        }
    }
}

/// One copy step, whole canvas: copying the cell of frame `f` onto the
/// canvas that holds the first `f` frames gives the canvas that holds the
/// first `f + 1` frames.
proof fn lemma_repack_step(
    src: Map<(int, int), (u8, u8, u8, u8)>,
    sw: int,
    sh: int,
    fw: int,
    fh: int,
    dfx: int,
    f: int,
)
    requires
        0 < fw <= sw,
        0 < fh <= sh,
        0 < dfx,
        0 <= f < spec_total_frames(sw, sh, fw, fh),
    ensures
        copy_rect(
            src,
            repacked_upto(src, sw, sh, fw, fh, dfx, f),
            dfx * fw,
            div_ceil_int(spec_total_frames(sw, sh, fw, fh), dfx) * fh,
            spec_source_offset_x(f, sh, fh, fw),
            spec_source_offset_y(f, sh, fh),
            spec_dest_offset_x(f, dfx, fw),
            spec_dest_offset_y(f, dfx, fh),
            fw,
            fh,
        ) == repacked_upto(src, sw, sh, fw, fh, dfx, f + 1),
{
    let dw = dfx * fw;
    let dh = div_ceil_int(spec_total_frames(sw, sh, fw, fh), dfx) * fh;
    let lhs = copy_rect(
        src,
        repacked_upto(src, sw, sh, fw, fh, dfx, f),
        dw,
        dh,
        spec_source_offset_x(f, sh, fh, fw),
        spec_source_offset_y(f, sh, fh),
        spec_dest_offset_x(f, dfx, fw),
        spec_dest_offset_y(f, dfx, fh),
        fw,
        fh,
    );
    let rhs = repacked_upto(src, sw, sh, fw, fh, dfx, f + 1);
    assert forall|p: (int, int)| #[trigger] lhs.dom().contains(p) implies lhs[p] == rhs[p] by {
        lemma_repack_point(src, sw, sh, fw, fh, dfx, f, p.0, p.1);
    }
    assert(lhs =~= rhs);
}

/// A partially repacked canvas addresses exactly its coordinate rectangle.
proof fn lemma_repacked_upto_dom(
    src: Map<(int, int), (u8, u8, u8, u8)>,
    sw: int,
    sh: int,
    fw: int,
    fh: int,
    dfx: int,
    k: int,
)
    ensures
        repacked_upto(src, sw, sh, fw, fh, dfx, k).dom() == pixel_dom(
            dfx * fw,
            div_ceil_int(spec_total_frames(sw, sh, fw, fh), dfx) * fh,
        ),
{
    assert(repacked_upto(src, sw, sh, fw, fh, dfx, k).dom() =~= pixel_dom(
        dfx * fw,
        div_ceil_int(spec_total_frames(sw, sh, fw, fh), dfx) * fh,
    ));
}

/// Before any frame is copied the canvas is all background: zero pixels.
proof fn lemma_repacked_upto_zero(
    src: Map<(int, int), (u8, u8, u8, u8)>,
    sw: int,
    sh: int,
    fw: int,
    fh: int,
    dfx: int,
)
    requires
        0 < fw,
        0 < fh,
        0 < dfx,
    ensures
        repacked_upto(src, sw, sh, fw, fh, dfx, 0) == zero_pixels(
            dfx * fw,
            div_ceil_int(spec_total_frames(sw, sh, fw, fh), dfx) * fh,
        ),
{
    let dw = dfx * fw;
    let dh = div_ceil_int(spec_total_frames(sw, sh, fw, fh), dfx) * fh;
    let lhs = repacked_upto(src, sw, sh, fw, fh, dfx, 0);
    let rhs = zero_pixels(dw, dh);
    assert forall|p: (int, int)| #[trigger] lhs.dom().contains(p) implies lhs[p] == rhs[p] by {
        vstd::arithmetic::div_mod::lemma_div_pos_is_pos(p.0, fw);
        vstd::arithmetic::div_mod::lemma_div_pos_is_pos(p.1, fh);
        vstd::arithmetic::mul::lemma_mul_nonnegative(p.1 / fh, dfx);
    }
    assert(lhs =~= rhs);
}

/// Pixel fidelity: in the repacked image, position `(i, j)` inside the
/// destination cell of frame `f` holds exactly the source pixel at position
/// `(i, j)` inside that frame's source cell — byte for byte.
pub proof fn lemma_pixel_fidelity(
    src: Map<(int, int), (u8, u8, u8, u8)>,
    sw: int,
    sh: int,
    fw: int,
    fh: int,
    dfx: int,
    f: int,
    i: int,
    j: int,
)
    requires
        0 < fw <= sw,
        0 < fh <= sh,
        0 < dfx,
        0 <= f < spec_total_frames(sw, sh, fw, fh),
        0 <= i < fw,
        0 <= j < fh,
    ensures
        repacked_pixels(src, sw, sh, fw, fh, dfx)[
            (spec_dest_offset_x(f, dfx, fw) + i, spec_dest_offset_y(f, dfx, fh) + j)
        ] == src[spec_source_pixel(f, sh, fh, fw, i, j)],
{
    let total = spec_total_frames(sw, sh, fw, fh);
    let dfy = div_ceil_int(total, dfx);
    let px = spec_dest_offset_x(f, dfx, fw) + i;
    let py = spec_dest_offset_y(f, dfx, fh) + j;
    vstd::arithmetic::div_mod::lemma_fundamental_div_mod(f, dfx);
    vstd::arithmetic::div_mod::lemma_mod_division_less_than_divisor(f, dfx);
    vstd::arithmetic::div_mod::lemma_div_pos_is_pos(f, dfx);
    lemma_div_ceil_minimal(total, dfx);
    assert(px < dfx * fw && 0 <= px) by (nonlinear_arith)
        requires
            px == (f % dfx) * fw + i,
            0 <= f % dfx < dfx,
            0 <= i < fw,
    ;
    assert(f / dfx < dfy) by {
        vstd::arithmetic::mul::lemma_mul_is_commutative(dfy, dfx);
        vstd::arithmetic::div_mod::lemma_multiply_divide_lt(f, dfx, dfy);
    }
    assert(py < dfy * fh && 0 <= py) by (nonlinear_arith)
        requires
            py == (f / dfx) * fh + j,
            0 <= f / dfx < dfy,
            0 <= j < fh,
    ;
    lemma_rect_pixel_determines_frame(f, dfx, fw, fh, px, py);
    assert((py / fh) * dfx + px / fw == f) by {
        vstd::arithmetic::mul::lemma_mul_is_commutative(f / dfx, dfx);
    }
    assert(px % fw == i && py % fh == j);
}

/// Repacks the source's frames into a new image with `frames_per_row` frames
/// per destination row (the source's own row width when omitted). Frames are
/// taken column-major from the source grid and placed row-major in the
/// destination grid; remainder pixels of the source are dropped, and unused
/// trailing destination cells keep the zero background.
pub fn repack(
    source: &DynamicImage,
    frame_width: u32,
    frame_height: u32,
    frames_per_row: Option<u32>,
) -> (r: Result<DynamicImage, RepackError>)
    requires
        frame_width > 0,
        frame_height > 0,
        frames_per_row matches Some(n) ==> n > 0,
    ensures
        ({
            let sw = dyn_width(*source) as int;
            let sh = dyn_height(*source) as int;
            let fw = frame_width as int;
            let fh = frame_height as int;
            &&& (fw > sw || fh > sh) ==> r == Result::<DynamicImage, RepackError>::Err(
                RepackError::FrameLargerThanSource,
            )
            &&& (fw <= sw && fh <= sh && !canvas_fits(sw, sh, fw, fh, frames_per_row)) ==> r
                == Result::<DynamicImage, RepackError>::Err(RepackError::CanvasTooLarge)
            &&& (fw <= sw && fh <= sh && canvas_fits(sw, sh, fw, fh, frames_per_row)) ==> ({
                &&& r is Ok
                &&& dyn_width(r->Ok_0) == spec_dest_frames_x(sw, fw, frames_per_row) * fw
                &&& dyn_height(r->Ok_0) == spec_dest_frames_y(sw, sh, fw, fh, frames_per_row)
                    * fh
                &&& dyn_pixels(r->Ok_0) == repacked_pixels(
                    dyn_pixels(*source),
                    sw,
                    sh,
                    fw,
                    fh,
                    spec_dest_frames_x(sw, fw, frames_per_row),
                )
            })
        }),
{
    let source_width = dyn_get_width(source);
    let source_height = dyn_get_height(source);
    if frame_width > source_width || frame_height > source_height {
        return Err(RepackError::FrameLargerThanSource);
    }
    let ghost sw = source_width as int;
    let ghost sh = source_height as int;
    let ghost fw = frame_width as int;
    let ghost fh = frame_height as int;
    let src_frames_x = source_width / frame_width;
    let src_frames_y = source_height / frame_height;
    proof {
        vstd::arithmetic::mul::lemma_mul_upper_bound(
            src_frames_x as int,
            u32::MAX as int,
            src_frames_y as int,
            u32::MAX as int,
        );
        vstd::arithmetic::mul::lemma_mul_nonnegative(src_frames_x as int, src_frames_y as int);
    }
    let total_wide = (src_frames_x as u64) * (src_frames_y as u64);
    if total_wide > (u32::MAX as u64) {
        return Err(RepackError::CanvasTooLarge);
    }
    let g = compute_geometry(source_width, source_height, frame_width, frame_height, frames_per_row);
    proof {
        vstd::arithmetic::div_mod::lemma_div_non_zero(sw, fw);
        vstd::arithmetic::mul::lemma_mul_upper_bound(
            g.dest_frames_x as int,
            u32::MAX as int,
            frame_width as int,
            u32::MAX as int,
        );
        vstd::arithmetic::mul::lemma_mul_upper_bound(
            g.dest_frames_y as int,
            u32::MAX as int,
            frame_height as int,
            u32::MAX as int,
        );
        vstd::arithmetic::mul::lemma_mul_nonnegative(g.dest_frames_x as int, frame_width as int);
        vstd::arithmetic::mul::lemma_mul_nonnegative(g.dest_frames_y as int, frame_height as int);
    }
    let dest_wide_w = (g.dest_frames_x as u64) * (frame_width as u64);
    let dest_wide_h = (g.dest_frames_y as u64) * (frame_height as u64);
    if dest_wide_w > (u32::MAX as u64) || dest_wide_h > (u32::MAX as u64) {
        return Err(RepackError::CanvasTooLarge);
    }
    let dest_width = g.dest_frames_x * frame_width;
    let dest_height = g.dest_frames_y * frame_height;
    proof {
        assert(4 * (dest_width as int) * (dest_height as int) < u128::MAX as int)
            by (nonlinear_arith)
            requires
                0 <= dest_width as int <= u32::MAX,
                0 <= dest_height as int <= u32::MAX,
        ;
    }
    let total_bytes = 4u128 * (dest_width as u128) * (dest_height as u128);
    if total_bytes > (usize::MAX as u128) {
        return Err(RepackError::CanvasTooLarge);
    }
    let ghost dfx = g.dest_frames_x as int;
    let ghost sfy = spec_src_frames_y(sh, fh);
    let ghost src = dyn_pixels(*source);
    let mut dest = Canvas::new(dest_width, dest_height);
    proof {
        lemma_repacked_upto_zero(src, sw, sh, fw, fh, dfx);
        assert(0int * sfy == 0) by (nonlinear_arith);
    }
    let mut x: u32 = 0;
    while x < g.src_frames_x
        invariant
            x <= g.src_frames_x,
            sw == dyn_width(*source) as int,
            sh == dyn_height(*source) as int,
            fw == frame_width as int,
            fh == frame_height as int,
            0 < fw <= sw,
            0 < fh <= sh,
            geometry_matches(g, sw, sh, fw, fh, frames_per_row),
            0 < g.dest_frames_x,
            dfx == g.dest_frames_x as int,
            sfy == spec_src_frames_y(sh, fh),
            src == dyn_pixels(*source),
            spec_total_frames(sw, sh, fw, fh) <= u32::MAX,
            dest_width as int == dfx * fw,
            dest_height as int == div_ceil_int(spec_total_frames(sw, sh, fw, fh), dfx) * fh,
            canvas_width(dest) == dest_width,
            canvas_height(dest) == dest_height,
            canvas_pixels(dest) == repacked_upto(src, sw, sh, fw, fh, dfx, (x as int) * sfy),
        decreases g.src_frames_x - x,
    {
        let mut y: u32 = 0;
        while y < g.src_frames_y
            invariant
                x < g.src_frames_x,
                y <= g.src_frames_y,
                sw == dyn_width(*source) as int,
                sh == dyn_height(*source) as int,
                fw == frame_width as int,
                fh == frame_height as int,
                0 < fw <= sw,
                0 < fh <= sh,
                geometry_matches(g, sw, sh, fw, fh, frames_per_row),
                0 < g.dest_frames_x,
                dfx == g.dest_frames_x as int,
                sfy == spec_src_frames_y(sh, fh),
                src == dyn_pixels(*source),
                spec_total_frames(sw, sh, fw, fh) <= u32::MAX,
                dest_width as int == dfx * fw,
                dest_height as int == div_ceil_int(spec_total_frames(sw, sh, fw, fh), dfx) * fh,
                canvas_width(dest) == dest_width,
                canvas_height(dest) == dest_height,
                canvas_pixels(dest) == repacked_upto(
                    src,
                    sw,
                    sh,
                    fw,
                    fh,
                    dfx,
                    (x as int) * sfy + (y as int),
                ),
            decreases g.src_frames_y - y,
        {
            let ghost f = (x as int) * sfy + (y as int);
            let ghost total = spec_total_frames(sw, sh, fw, fh);
            proof {
                lemma_driver_frame_bounds(sw, sh, fw, fh, frames_per_row, x as int, y as int);
                vstd::arithmetic::div_mod::lemma_fundamental_div_mod_converse_div(
                    f,
                    sfy,
                    x as int,
                    y as int,
                );
                vstd::arithmetic::div_mod::lemma_fundamental_div_mod_converse_mod(
                    f,
                    sfy,
                    x as int,
                    y as int,
                );
            }
            let source_offset_x = x * frame_width;
            let source_offset_y = y * frame_height;
            let (dest_offset_x, dest_offset_y) = source_coord_to_dest_offset(
                x,
                y,
                g.src_frames_y,
                g.dest_frames_x,
                frame_width,
                frame_height,
            );
            proof {
                lemma_repacked_upto_dom(src, sw, sh, fw, fh, dfx, f);
            }
            copy_frame(
                source,
                source_offset_x,
                source_offset_y,
                &mut dest,
                dest_offset_x,
                dest_offset_y,
                frame_width,
                frame_height,
            );
            proof {
                lemma_repack_step(src, sw, sh, fw, fh, dfx, f);
            }
            y = y + 1;
        }
        proof {
            vstd::arithmetic::mul::lemma_mul_is_distributive_add_other_way(
                sfy,
                x as int,
                1,
            );
        }
        x = x + 1;
    }
    proof {
        assert((g.src_frames_x as int) * sfy == spec_total_frames(sw, sh, fw, fh));
    }
    Ok(canvas_into_image(dest))
}

/// Bounds the driver needs for the frame at source grid column `x`, row `y`:
/// its linear index is inside the grid, and every pixel offset involved fits
/// both the images and the machine's integers.
proof fn lemma_driver_frame_bounds(
    sw: int,
    sh: int,
    fw: int,
    fh: int,
    frames_per_row: Option<u32>,
    x: int,
    y: int,
)
    requires
        0 < fw <= sw,
        0 < fh <= sh,
        0 < spec_dest_frames_x(sw, fw, frames_per_row),
        0 <= x < spec_src_frames_x(sw, fw),
        0 <= y < spec_src_frames_y(sh, fh),
    ensures
        ({
            let sfx = spec_src_frames_x(sw, fw);
            let sfy = spec_src_frames_y(sh, fh);
            let dfx = spec_dest_frames_x(sw, fw, frames_per_row);
            let dfy = spec_dest_frames_y(sw, sh, fw, fh, frames_per_row);
            let f = spec_frames_processed(x, y, sfy);
            &&& 0 <= f < spec_total_frames(sw, sh, fw, fh)
            &&& 0 <= x * fw
            &&& (x + 1) * fw <= sw
            &&& x * fw + fw == (x + 1) * fw
            &&& 0 <= y * fh
            &&& (y + 1) * fh <= sh
            &&& y * fh + fh == (y + 1) * fh
            &&& (spec_dest_grid_x(f, dfx) + 1) * fw <= dfx * fw
            &&& (spec_dest_grid_y(f, dfx) + 1) * fh <= dfy * fh
            &&& spec_dest_offset_x(f, dfx, fw) + fw <= dfx * fw
            &&& spec_dest_offset_y(f, dfx, fh) + fh <= dfy * fh
        }),
{
    let sfx = spec_src_frames_x(sw, fw);
    let sfy = spec_src_frames_y(sh, fh);
    let dfx = spec_dest_frames_x(sw, fw, frames_per_row);
    let dfy = spec_dest_frames_y(sw, sh, fw, fh, frames_per_row);
    let total = spec_total_frames(sw, sh, fw, fh);
    let f = spec_frames_processed(x, y, sfy);
    assert(f < total && 0 <= f) by (nonlinear_arith)
        requires
            f == x * sfy + y,
            total == sfx * sfy,
            0 <= x < sfx,
            0 <= y < sfy,
    ;
    assert((x + 1) * fw <= sfx * fw && 0 <= x * fw && x * fw + fw == (x + 1) * fw)
        by (nonlinear_arith)
        requires
            0 <= x < sfx,
            0 < fw,
    ;
    assert(sfx * fw <= sw) by {
        vstd::arithmetic::div_mod::lemma_fundamental_div_mod(sw, fw);
        vstd::arithmetic::div_mod::lemma_mod_division_less_than_divisor(sw, fw);
        vstd::arithmetic::mul::lemma_mul_is_commutative(sfx, fw);
    }
    assert((y + 1) * fh <= sfy * fh && 0 <= y * fh && y * fh + fh == (y + 1) * fh)
        by (nonlinear_arith)
        requires
            0 <= y < sfy,
            0 < fh,
    ;
    assert(sfy * fh <= sh) by {
        vstd::arithmetic::div_mod::lemma_fundamental_div_mod(sh, fh);
        vstd::arithmetic::div_mod::lemma_mod_division_less_than_divisor(sh, fh);
        vstd::arithmetic::mul::lemma_mul_is_commutative(sfy, fh);
    }
    vstd::arithmetic::div_mod::lemma_mod_division_less_than_divisor(f, dfx);
    vstd::arithmetic::div_mod::lemma_div_pos_is_pos(f, dfx);
    lemma_frame_conservation(sw, sh, fw, fh, frames_per_row);
    assert(f / dfx < dfy) by {
        vstd::arithmetic::mul::lemma_mul_is_commutative(dfy, dfx);
        vstd::arithmetic::mul::lemma_mul_is_commutative(dfx, dfy);
        vstd::arithmetic::div_mod::lemma_multiply_divide_lt(f, dfx, dfy);
    }
    assert((f % dfx + 1) * fw <= dfx * fw && spec_dest_offset_x(f, dfx, fw) + fw == (f % dfx + 1)
        * fw) by (nonlinear_arith)
        requires
            0 <= f % dfx < dfx,
            0 < fw,
    ;
    assert((f / dfx + 1) * fh <= dfy * fh && spec_dest_offset_y(f, dfx, fh) + fh == (f / dfx + 1)
        * fh) by (nonlinear_arith)
        requires
            0 <= f / dfx < dfy,
            0 < fh,
    ;
}

} // verus!
