use frame_rev::geometry::compute_geometry;
use frame_rev::geometry::div_ceil;

#[test]
fn div_ceil_exact_values() {
    assert_eq!(div_ceil(3, 2), 2);
    assert_eq!(div_ceil(4, 2), 2);
    assert_eq!(div_ceil(0, 5), 0);
    assert_eq!(div_ceil(7, 1), 7);
    assert_eq!(div_ceil(1, 7), 1);
    assert_eq!(div_ceil(u32::MAX, 1), u32::MAX);
    assert_eq!(div_ceil(u32::MAX, 2), 0x8000_0000);
}

#[test]
fn geometry_square_no_override() {
    let g = compute_geometry(64, 64, 32, 32, None);
    assert_eq!(g.src_frames_x, 2);
    assert_eq!(g.src_frames_y, 2);
    assert_eq!(g.dest_frames_x, 2);
    assert_eq!(g.dest_frames_y, 2);
}

#[test]
fn geometry_row_no_override_is_identity() {
    let g = compute_geometry(96, 32, 32, 32, None);
    assert_eq!(g.src_frames_x, 3);
    assert_eq!(g.src_frames_y, 1);
    assert_eq!(g.dest_frames_x, 3);
    assert_eq!(g.dest_frames_y, 1);
}

#[test]
fn geometry_row_with_override_rounds_up() {
    let g = compute_geometry(96, 32, 32, 32, Some(2));
    assert_eq!(g.src_frames_x, 3);
    assert_eq!(g.src_frames_y, 1);
    assert_eq!(g.dest_frames_x, 2);
    assert_eq!(g.dest_frames_y, 2);
}

#[test]
fn geometry_drops_remainder_pixels() {
    let g = compute_geometry(100, 50, 32, 32, None);
    assert_eq!(g.src_frames_x, 3);
    assert_eq!(g.src_frames_y, 1);
    assert_eq!(g.dest_frames_x, 3);
    assert_eq!(g.dest_frames_y, 1);
}

#[test]
fn geometry_is_deterministic() {
    let g1 = compute_geometry(640, 480, 17, 23, Some(5));
    let g2 = compute_geometry(640, 480, 17, 23, Some(5));
    assert_eq!(g1, g2);
}

#[test]
fn geometry_conserves_frames() {
    for over in [None, Some(1), Some(2), Some(3), Some(7)] {
        let g = compute_geometry(96, 64, 32, 32, over);
        let total = g.src_frames_x as u64 * g.src_frames_y as u64;
        let cells = g.dest_frames_x as u64 * g.dest_frames_y as u64;
        assert!(total <= cells);
    }
}

#[test]
fn geometry_grid_is_minimal() {
    for over in [None, Some(1), Some(2), Some(3), Some(4), Some(5), Some(7)] {
        let g = compute_geometry(96, 64, 32, 32, over);
        let total = g.src_frames_x as u64 * g.src_frames_y as u64;
        let dfx = g.dest_frames_x as u64;
        let dfy = g.dest_frames_y as u64;
        assert!(dfy * dfx >= total);
        assert!((dfy - 1) * dfx < total);
    }
}
