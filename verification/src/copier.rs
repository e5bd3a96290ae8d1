//! Copying one rectangular block of pixels from the source image into the
//! destination canvas, preserving pixel values exactly.

use vstd::prelude::*;
use image::DynamicImage;
use crate::indexer::in_rect;
use crate::raster::Canvas;
use crate::raster::canvas_height;
use crate::raster::canvas_pixels;
use crate::raster::canvas_put_pixel;
use crate::raster::canvas_width;
use crate::raster::dyn_get_pixel;
use crate::raster::dyn_height;
use crate::raster::dyn_pixels;
use crate::raster::dyn_width;
use crate::raster::pixel_dom;

verus! {

/// The destination pixel map after copying the `fw` by `fh` source block at
/// `(sx, sy)` onto the `dw` by `dh` destination at `(dx, dy)`: pixels inside
/// the rectangle take the source values, every other pixel keeps its own.
pub open spec fn copy_rect(
    src: Map<(int, int), (u8, u8, u8, u8)>,
    dst: Map<(int, int), (u8, u8, u8, u8)>,
    dw: int,
    dh: int,
    sx: int,
    sy: int,
    dx: int,
    dy: int,
    fw: int,
    fh: int,
) -> Map<(int, int), (u8, u8, u8, u8)> {
    Map::new(
        |p: (int, int)| 0 <= p.0 < dw && 0 <= p.1 < dh,
        |p: (int, int)|
            if in_rect(p, dx, dy, fw, fh) {
                src[(sx + (p.0 - dx), sy + (p.1 - dy))]
            } else {
                dst[p]
            },
    )
}

/// The destination pixel map in the middle of a block copy that walks the
/// block column by column: columns before `ci` are copied whole, and of
/// column `ci` the rows before `cj` are copied.
pub open spec fn copy_rect_upto(
    src: Map<(int, int), (u8, u8, u8, u8)>,
    dst: Map<(int, int), (u8, u8, u8, u8)>,
    dw: int,
    dh: int,
    sx: int,
    sy: int,
    dx: int,
    dy: int,
    fw: int,
    fh: int,
    ci: int,
    cj: int,
) -> Map<(int, int), (u8, u8, u8, u8)> {
    Map::new(
        |p: (int, int)| 0 <= p.0 < dw && 0 <= p.1 < dh,
        |p: (int, int)|
            if in_rect(p, dx, dy, fw, fh) && (p.0 - dx < ci || (p.0 - dx == ci && p.1 - dy
                < cj)) {
                src[(sx + (p.0 - dx), sy + (p.1 - dy))]
            } else {
                dst[p]
            },
    )
}

/// Copies the rectangular pixel block of size `frame_width` by
/// `frame_height` at the given source offsets into the canvas at the given
/// destination offsets — a direct overwrite, no transformation. Only the
/// destination rectangle is touched: every other canvas pixel keeps its
/// value.
pub fn copy_frame(
    source: &DynamicImage,
    source_offset_x: u32,
    source_offset_y: u32,
    dest: &mut Canvas,
    dest_offset_x: u32,
    dest_offset_y: u32,
    frame_width: u32,
    frame_height: u32,
)
    requires
        source_offset_x + frame_width <= dyn_width(*source),
        source_offset_y + frame_height <= dyn_height(*source),
        dest_offset_x + frame_width <= canvas_width(*old(dest)),
        dest_offset_y + frame_height <= canvas_height(*old(dest)),
        canvas_pixels(*old(dest)).dom() == pixel_dom(
            canvas_width(*old(dest)) as int,
            canvas_height(*old(dest)) as int,
        ),
    ensures
        canvas_width(*final(dest)) == canvas_width(*old(dest)),
        canvas_height(*final(dest)) == canvas_height(*old(dest)),
        canvas_pixels(*final(dest)) == copy_rect(
            dyn_pixels(*source),
            canvas_pixels(*old(dest)),
            canvas_width(*old(dest)) as int,
            canvas_height(*old(dest)) as int,
            source_offset_x as int,
            source_offset_y as int,
            dest_offset_x as int,
            dest_offset_y as int,
            frame_width as int,
            frame_height as int,
        ),
{
    let ghost src = dyn_pixels(*source);
    let ghost dst0 = canvas_pixels(*old(dest));
    let ghost dw = canvas_width(*old(dest)) as int;
    let ghost dh = canvas_height(*old(dest)) as int;
    let ghost sx = source_offset_x as int;
    let ghost sy = source_offset_y as int;
    let ghost dx = dest_offset_x as int;
    let ghost dy = dest_offset_y as int;
    let ghost fw = frame_width as int;
    let ghost fh = frame_height as int;
    proof {
        assert(canvas_pixels(*dest) =~= copy_rect_upto(
            src,
            dst0,
            dw,
            dh,
            sx,
            sy,
            dx,
            dy,
            fw,
            fh,
            0,
            0,
        ));
    }
    let mut i: u32 = 0;
    while i < frame_width
        invariant
            i <= frame_width,
            source_offset_x + frame_width <= dyn_width(*source),
            source_offset_y + frame_height <= dyn_height(*source),
            dest_offset_x + frame_width <= canvas_width(*old(dest)),
            dest_offset_y + frame_height <= canvas_height(*old(dest)),
            canvas_width(*dest) == canvas_width(*old(dest)),
            canvas_height(*dest) == canvas_height(*old(dest)),
            src == dyn_pixels(*source),
            dst0 == canvas_pixels(*old(dest)),
            dw == canvas_width(*old(dest)) as int,
            dh == canvas_height(*old(dest)) as int,
            sx == source_offset_x as int,
            sy == source_offset_y as int,
            dx == dest_offset_x as int,
            dy == dest_offset_y as int,
            fw == frame_width as int,
            fh == frame_height as int,
            dst0.dom() == pixel_dom(dw, dh),
            canvas_pixels(*dest) == copy_rect_upto(
                src,
                dst0,
                dw,
                dh,
                sx,
                sy,
                dx,
                dy,
                fw,
                fh,
                i as int,
                0,
            ),
        decreases frame_width - i,
    {
        let mut j: u32 = 0;
        while j < frame_height
            invariant
                i < frame_width,
                j <= frame_height,
                source_offset_x + frame_width <= dyn_width(*source),
                source_offset_y + frame_height <= dyn_height(*source),
                dest_offset_x + frame_width <= canvas_width(*old(dest)),
                dest_offset_y + frame_height <= canvas_height(*old(dest)),
                canvas_width(*dest) == canvas_width(*old(dest)),
                canvas_height(*dest) == canvas_height(*old(dest)),
                src == dyn_pixels(*source),
                dst0 == canvas_pixels(*old(dest)),
                dw == canvas_width(*old(dest)) as int,
                dh == canvas_height(*old(dest)) as int,
                sx == source_offset_x as int,
                sy == source_offset_y as int,
                dx == dest_offset_x as int,
                dy == dest_offset_y as int,
                fw == frame_width as int,
                fh == frame_height as int,
                dst0.dom() == pixel_dom(dw, dh),
                canvas_pixels(*dest) == copy_rect_upto(
                    src,
                    dst0,
                    dw,
                    dh,
                    sx,
                    sy,
                    dx,
                    dy,
                    fw,
                    fh,
                    i as int,
                    j as int,
                ),
            decreases frame_height - j,
        {
            let p = dyn_get_pixel(source, source_offset_x + i, source_offset_y + j);
            canvas_put_pixel(dest, dest_offset_x + i, dest_offset_y + j, p);
            proof {
                assert(copy_rect_upto(src, dst0, dw, dh, sx, sy, dx, dy, fw, fh, i as int, j as int)
                    .insert(((dx + i) as int, (dy + j) as int), src[(sx + i, sy + j)]) =~= copy_rect_upto(
                    src,
                    dst0,
                    dw,
                    dh,
                    sx,
                    sy,
                    dx,
                    dy,
                    fw,
                    fh,
                    i as int,
                    j + 1,
                ));
            }
            j = j + 1;
        }
        proof {
            assert(copy_rect_upto(src, dst0, dw, dh, sx, sy, dx, dy, fw, fh, i as int, fh) =~= copy_rect_upto(
                src,
                dst0,
                dw,
                dh,
                sx,
                sy,
                dx,
                dy,
                fw,
                fh,
                i + 1,
                0,
            ));
        }
        i = i + 1;
    }
    proof {
        assert(copy_rect_upto(src, dst0, dw, dh, sx, sy, dx, dy, fw, fh, fw, 0) =~= copy_rect(
            src,
            dst0,
            dw,
            dh,
            sx,
            sy,
            dx,
            dy,
            fw,
            fh,
        ));
    }
}

} // verus!
