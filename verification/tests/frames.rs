use rust_on_rails::frames::{bgra_to_rgba_rotated, yuv_to_rgba, Plane};

fn plane(data: Vec<u8>, row_stride: i32, pixel_stride: i32) -> Plane {
    Plane { data, row_stride, pixel_stride }
}

fn reference(y: &Plane, u: &Plane, v: &Plane, width: i32, height: i32) -> Vec<u8> {
    let mut rgba = Vec::new();
    for row in 0..height {
        for col in 0..width {
            let yi = (row * y.row_stride + col * y.pixel_stride) as usize;
            let ui = ((row / 2) * u.row_stride + (col / 2) * u.pixel_stride) as usize;
            let vi = ((row / 2) * v.row_stride + (col / 2) * v.pixel_stride) as usize;
            let c = y.data.get(yi).copied().unwrap_or(0) as i32 - 16;
            let d = u.data.get(ui).copied().unwrap_or(128) as i32 - 128;
            let e = v.data.get(vi).copied().unwrap_or(128) as i32 - 128;
            let r = ((298 * c + 409 * e + 128) >> 8).clamp(0, 255) as u8;
            let g = ((298 * c - 100 * d - 208 * e + 128) >> 8).clamp(0, 255) as u8;
            let b = ((298 * c + 516 * d + 128) >> 8).clamp(0, 255) as u8;
            rgba.extend_from_slice(&[r, g, b, 255]);
        }
    }
    rgba
}

#[test]
fn yuv_black_and_white() {
    let u = plane(vec![128], 1, 1);
    let v = plane(vec![128], 1, 1);
    assert_eq!(yuv_to_rgba(&plane(vec![16], 1, 1), &u, &v, 1, 1), vec![0, 0, 0, 255]);
    assert_eq!(yuv_to_rgba(&plane(vec![235], 1, 1), &u, &v, 1, 1), vec![255, 255, 255, 255]);
}

#[test]
fn yuv_red() {
    let out = yuv_to_rgba(&plane(vec![81], 1, 1), &plane(vec![90], 1, 1), &plane(vec![240], 1, 1), 1, 1);
    assert_eq!(out, vec![255, 0, 0, 255]);
}

#[test]
fn yuv_missing_samples_use_defaults() {
    // Empty planes: luma reads 0, chroma reads 128.
    let out = yuv_to_rgba(&plane(vec![], 4, 1), &plane(vec![], 2, 1), &plane(vec![], 2, 1), 2, 1);
    assert_eq!(out, vec![0, 0, 0, 255, 0, 0, 0, 255]);
}

#[test]
fn yuv_matches_reference_with_strides() {
    let width = 4;
    let height = 3;
    let y = plane((0..20u8).map(|i| i.wrapping_mul(37).wrapping_add(16)).collect(), 5, 1);
    let u = plane((0..8u8).map(|i| i.wrapping_mul(53)).collect(), 4, 2);
    let v = plane((0..8u8).map(|i| 255 - i.wrapping_mul(29)).collect(), 4, 2);
    let out = yuv_to_rgba(&y, &u, &v, width, height);
    assert_eq!(out.len(), 4 * 4 * 3);
    assert_eq!(out, reference(&y, &u, &v, width, height));
    assert!(out.chunks(4).all(|px| px[3] == 255));
}

#[test]
fn yuv_empty_frame() {
    let p = plane(vec![1, 2, 3], 1, 1);
    assert_eq!(yuv_to_rgba(&p, &p, &p, 0, 5), Vec::<u8>::new());
    assert_eq!(yuv_to_rgba(&p, &p, &p, 3, 0), Vec::<u8>::new());
}

#[test]
fn bgra_rotates_a_row_into_a_column() {
    let src = [1, 2, 3, 4, 5, 6, 7, 8];
    // One row of two pixels becomes one column of two pixels.
    assert_eq!(bgra_to_rgba_rotated(&src, 2, 1, 8), vec![3, 2, 1, 4, 7, 6, 5, 8]);
}

#[test]
fn bgra_rotates_a_column_into_a_row() {
    let src = [1, 2, 3, 4, 5, 6, 7, 8];
    // Two rows of one pixel: the last row comes first.
    assert_eq!(bgra_to_rgba_rotated(&src, 1, 2, 4), vec![7, 6, 5, 8, 3, 2, 1, 4]);
}

#[test]
fn bgra_short_buffer_leaves_zeros() {
    let src = [1, 2, 3, 4, 5, 6];
    assert_eq!(bgra_to_rgba_rotated(&src, 2, 1, 8), vec![3, 2, 1, 4, 0, 0, 0, 0]);
}

#[test]
fn bgra_row_padding_is_skipped() {
    // Two rows of two pixels with 12 bytes per row (4 bytes of padding).
    let src: Vec<u8> = (0..24u8).collect();
    let out = bgra_to_rgba_rotated(&src, 2, 2, 12);
    // Image is 2 wide, 2 high: (dx, dy) comes from (x = dy, y = 1 - dx).
    assert_eq!(
        out,
        vec![14, 13, 12, 15, 2, 1, 0, 3, 18, 17, 16, 19, 6, 5, 4, 7]
    );
}
