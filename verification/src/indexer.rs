//! Frame indexing: the bijection between a frame's position in the source
//! grid and its position in the destination grid.
//!
//! Frames are linearized column-major over the source grid — the index
//! advances fastest along the source's vertical axis — and placed row-major
//! in the destination grid.

use vstd::prelude::*;

verus! {

/// The linear index of the source frame at grid column `x`, row `y`: frames
/// are counted down each source column before moving to the next.
pub open spec fn spec_frames_processed(x: int, y: int, src_frames_y: int) -> int {
    x * src_frames_y + y
}

/// Destination grid column of the frame with linear index `f`.
pub open spec fn spec_dest_grid_x(f: int, dest_frames_x: int) -> int {
    f % dest_frames_x
}

/// Destination grid row of the frame with linear index `f`.
pub open spec fn spec_dest_grid_y(f: int, dest_frames_x: int) -> int {
    f / dest_frames_x
}

/// Destination pixel offset, horizontal, of the frame with linear index `f`.
pub open spec fn spec_dest_offset_x(f: int, dest_frames_x: int, fw: int) -> int {
    spec_dest_grid_x(f, dest_frames_x) * fw
}

/// Destination pixel offset, vertical, of the frame with linear index `f`.
pub open spec fn spec_dest_offset_y(f: int, dest_frames_x: int, fh: int) -> int {
    spec_dest_grid_y(f, dest_frames_x) * fh
}

/// Whether the pixel `p` lies in the `w` by `h` rectangle at `(x, y)`.
pub open spec fn in_rect(p: (int, int), x: int, y: int, w: int, h: int) -> bool {
    &&& x <= p.0 < x + w
    &&& y <= p.1 < y + h
}

/// Maps source grid coordinates to the pixel offsets of the frame's cell in
/// the destination image.
pub fn source_coord_to_dest_offset(
    x: u32,
    y: u32,
    src_frames_y: u32,
    dest_frames_x: u32,
    frame_width: u32,
    frame_height: u32,
) -> (r: (u32, u32))
    requires
        y < src_frames_y,
        dest_frames_x > 0,
        spec_frames_processed(x as int, y as int, src_frames_y as int) <= u32::MAX,
        (spec_dest_grid_x(
            spec_frames_processed(x as int, y as int, src_frames_y as int),
            dest_frames_x as int,
        ) + 1) * frame_width <= u32::MAX,
        (spec_dest_grid_y(
            spec_frames_processed(x as int, y as int, src_frames_y as int),
            dest_frames_x as int,
        ) + 1) * frame_height <= u32::MAX,
    ensures
        ({
            let f = spec_frames_processed(x as int, y as int, src_frames_y as int);
            &&& r.0 == spec_dest_offset_x(f, dest_frames_x as int, frame_width as int)
            &&& r.1 == spec_dest_offset_y(f, dest_frames_x as int, frame_height as int)
        }),
{
    let frames_processed = x * src_frames_y + y;
    let dest_grid_x = frames_processed % dest_frames_x;
    let dest_grid_y = frames_processed / dest_frames_x;
    proof {
        let f = frames_processed as int;
        let dfx = dest_frames_x as int;
        vstd::arithmetic::div_mod::lemma_mod_division_less_than_divisor(f, dfx);
        vstd::arithmetic::div_mod::lemma_div_pos_is_pos(f, dfx);
        vstd::arithmetic::mul::lemma_mul_is_distributive_add_other_way(
            frame_width as int,
            f % dfx,
            1,
        );
        vstd::arithmetic::mul::lemma_mul_is_distributive_add_other_way(
            frame_height as int,
            f / dfx,
            1,
        );
        vstd::arithmetic::mul::lemma_mul_nonnegative(f % dfx, frame_width as int);
        vstd::arithmetic::mul::lemma_mul_nonnegative(f / dfx, frame_height as int);
    }
    (dest_grid_x * frame_width, dest_grid_y * frame_height)
}

/// Disjointness: the destination rectangles of two distinct linear frame
/// indices never overlap — a pixel inside the cell of frame `i` lies outside
/// the cell of every other frame `j`.
pub proof fn lemma_dest_rects_disjoint(
    i: int,
    j: int,
    dest_frames_x: int,
    fw: int,
    fh: int,
    px: int,
    py: int,
)
    requires
        0 < dest_frames_x,
        0 < fw,
        0 < fh,
        0 <= i,
        0 <= j,
        i != j,
        in_rect(
            (px, py),
            spec_dest_offset_x(i, dest_frames_x, fw),
            spec_dest_offset_y(i, dest_frames_x, fh),
            fw,
            fh,
        ),
    ensures
        !in_rect(
            (px, py),
            spec_dest_offset_x(j, dest_frames_x, fw),
            spec_dest_offset_y(j, dest_frames_x, fh),
            fw,
            fh,
        ),
{
    lemma_rect_pixel_determines_frame(i, dest_frames_x, fw, fh, px, py);
    if in_rect(
        (px, py),
        spec_dest_offset_x(j, dest_frames_x, fw),
        spec_dest_offset_y(j, dest_frames_x, fh),
        fw,
        fh,
    ) {
        lemma_rect_pixel_determines_frame(j, dest_frames_x, fw, fh, px, py);
        vstd::arithmetic::div_mod::lemma_fundamental_div_mod(i, dest_frames_x);
        vstd::arithmetic::div_mod::lemma_fundamental_div_mod(j, dest_frames_x);
        assert(false);
    }
}

/// A pixel inside the destination cell of frame `f` recovers the frame's
/// grid coordinates by division: the cell column is `px / fw` and the cell
/// row is `py / fh`.
pub proof fn lemma_rect_pixel_determines_frame(
    f: int,
    dest_frames_x: int,
    fw: int,
    fh: int,
    px: int,
    py: int,
)
    requires
        0 < dest_frames_x,
        0 < fw,
        0 < fh,
        0 <= f,
        in_rect(
            (px, py),
            spec_dest_offset_x(f, dest_frames_x, fw),
            spec_dest_offset_y(f, dest_frames_x, fh),
            fw,
            fh,
        ),
    ensures
        px / fw == spec_dest_grid_x(f, dest_frames_x),
        py / fh == spec_dest_grid_y(f, dest_frames_x),
        px % fw == px - spec_dest_offset_x(f, dest_frames_x, fw),
        py % fh == py - spec_dest_offset_y(f, dest_frames_x, fh),
{
    let gx = spec_dest_grid_x(f, dest_frames_x);
    let gy = spec_dest_grid_y(f, dest_frames_x);
    vstd::arithmetic::div_mod::lemma_mod_division_less_than_divisor(f, dest_frames_x);
    vstd::arithmetic::div_mod::lemma_div_pos_is_pos(f, dest_frames_x);
    assert(px == gx * fw + (px - gx * fw));
    vstd::arithmetic::div_mod::lemma_fundamental_div_mod_converse_div(
        px,
        fw,
        gx,
        px - gx * fw,
    );
    vstd::arithmetic::div_mod::lemma_fundamental_div_mod_converse_mod(
        px,
        fw,
        gx,
        px - gx * fw,
    );
    vstd::arithmetic::div_mod::lemma_fundamental_div_mod_converse_div(
        py,
        fh,
        gy,
        py - gy * fh,
    );
    vstd::arithmetic::div_mod::lemma_fundamental_div_mod_converse_mod(
        py,
        fh,
        gy,
        py - gy * fh,
    );
}

} // verus!
