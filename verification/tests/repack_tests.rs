use frame_rev::copier::copy_frame;
use frame_rev::raster::Canvas;
use frame_rev::repack::repack;
use frame_rev::repack::RepackError;
use image::DynamicImage;
use image::GenericImage;
use image::GenericImageView;
use image::Rgba;

/// A source image whose every pixel encodes its own coordinates, so that any
/// misplaced or transformed pixel is visible.
fn make_source(w: u32, h: u32) -> DynamicImage {
    let mut img = DynamicImage::new_rgba8(w, h);
    for x in 0..w {
        for y in 0..h {
            img.put_pixel(x, y, Rgba([x as u8, y as u8, (x ^ y) as u8, 255]));
        }
    }
    img
}

/// Checks that the `fw` by `fh` block of `out` at `(dx, dy)` equals the block
/// of `src` at `(sx, sy)`, byte for byte.
fn assert_block_eq(
    src: &DynamicImage,
    sx: u32,
    sy: u32,
    out: &DynamicImage,
    dx: u32,
    dy: u32,
    fw: u32,
    fh: u32,
) {
    for i in 0..fw {
        for j in 0..fh {
            assert_eq!(out.get_pixel(dx + i, dy + j), src.get_pixel(sx + i, sy + j));
        }
    }
}

#[test]
fn square_repack_maps_columns_to_rows() {
    let src = make_source(64, 64);
    let out = repack(&src, 32, 32, None).unwrap();
    assert_eq!(out.width(), 64);
    assert_eq!(out.height(), 64);
    // Linear order walks source columns: (0,0) -> 0, (0,1) -> 1, (1,0) -> 2,
    // (1,1) -> 3; placement in the destination is row-major.
    assert_block_eq(&src, 0, 0, &out, 0, 0, 32, 32);
    assert_block_eq(&src, 0, 32, &out, 32, 0, 32, 32);
    assert_block_eq(&src, 32, 0, &out, 0, 32, 32, 32);
    assert_block_eq(&src, 32, 32, &out, 32, 32, 32, 32);
}

#[test]
fn single_row_repack_is_identity() {
    let src = make_source(96, 32);
    let out = repack(&src, 32, 32, None).unwrap();
    assert_eq!(out.width(), 96);
    assert_eq!(out.height(), 32);
    for x in 0..96 {
        for y in 0..32 {
            assert_eq!(out.get_pixel(x, y), src.get_pixel(x, y));
        }
    }
}

#[test]
fn override_wraps_row_and_leaves_background() {
    let src = make_source(96, 32);
    let out = repack(&src, 32, 32, Some(2)).unwrap();
    assert_eq!(out.width(), 64);
    assert_eq!(out.height(), 64);
    assert_block_eq(&src, 0, 0, &out, 0, 0, 32, 32);
    assert_block_eq(&src, 32, 0, &out, 32, 0, 32, 32);
    assert_block_eq(&src, 64, 0, &out, 0, 32, 32, 32);
    // The unused trailing cell stays at the zeroed background.
    for x in 32..64 {
        for y in 32..64 {
            assert_eq!(out.get_pixel(x, y), Rgba([0, 0, 0, 0]));
        }
    }
}

#[test]
fn remainder_pixels_are_dropped() {
    let src = make_source(100, 50);
    let out = repack(&src, 32, 32, None).unwrap();
    assert_eq!(out.width(), 96);
    assert_eq!(out.height(), 32);
    assert_block_eq(&src, 0, 0, &out, 0, 0, 32, 32);
    assert_block_eq(&src, 32, 0, &out, 32, 0, 32, 32);
    assert_block_eq(&src, 64, 0, &out, 64, 0, 32, 32);
}

#[test]
fn frame_larger_than_source_is_refused() {
    let src = make_source(16, 16);
    assert_eq!(repack(&src, 32, 16, None), Err(RepackError::FrameLargerThanSource));
    assert_eq!(repack(&src, 16, 32, None), Err(RepackError::FrameLargerThanSource));
}

#[test]
fn oversized_canvas_is_refused() {
    let src = make_source(2, 1);
    assert_eq!(repack(&src, 2, 1, Some(u32::MAX)), Err(RepackError::CanvasTooLarge));
}

#[test]
fn copy_frame_copies_block_and_nothing_else() {
    let src = make_source(64, 32);
    let mut canvas = Canvas::new(64, 32);
    copy_frame(&src, 32, 0, &mut canvas, 0, 0, 32, 32);
    assert_eq!(canvas.width(), 64);
    assert_eq!(canvas.height(), 32);
    for i in 0..32 {
        for j in 0..32 {
            assert_eq!(canvas.get(i, j), {
                let p = src.get_pixel(32 + i, j);
                (p.0[0], p.0[1], p.0[2], p.0[3])
            });
        }
    }
    for x in 32..64 {
        for y in 0..32 {
            assert_eq!(canvas.get(x, y), (0, 0, 0, 0));
        }
    }
}

#[test]
fn distinct_frames_land_in_distinct_cells() {
    // Every source frame carries one distinctive color; after the repack each
    // destination cell holds exactly one of them, none overwritten.
    let mut src = DynamicImage::new_rgba8(96, 64);
    for x in 0..96 {
        for y in 0..64 {
            let fx = x / 32;
            let fy = y / 32;
            let f = (fx * 2 + fy) as u8;
            src.put_pixel(x, y, Rgba([f, 10 + f, 20 + f, 255]));
        }
    }
    let out = repack(&src, 32, 32, Some(4)).unwrap();
    assert_eq!(out.width(), 128);
    assert_eq!(out.height(), 64);
    // Six frames, linear order 0..6, fill row-major cells; the two trailing
    // cells of the second destination row stay background.
    let mut seen = [false; 6];
    for cell in 0..6 {
        let dx = (cell % 4) * 32;
        let dy = (cell / 4) * 32;
        let p = out.get_pixel(dx, dy);
        let f = p.0[0] as usize;
        assert!(f < 6);
        assert!(!seen[f]);
        seen[f] = true;
        for i in 0..32 {
            for j in 0..32 {
                assert_eq!(out.get_pixel(dx + i, dy + j), p);
            }
        }
    }
    for cell in 6..8 {
        let dx = (cell % 4) * 32;
        let dy = (cell / 4) * 32;
        for i in 0..32 {
            for j in 0..32 {
                assert_eq!(out.get_pixel(dx + i, dy + j), Rgba([0, 0, 0, 0]));
            }
        }
    }
}
