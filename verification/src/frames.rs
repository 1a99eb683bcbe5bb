use vstd::prelude::*;
use vstd::arithmetic::div_mod::lemma_fundamental_div_mod_converse;

verus! {

/// Why a camera could not hand out a frame.
#[derive(Debug)]
pub enum CameraError {
    AccessDenied,
    WaitingForAccess,
    FailedToGetFrame,
}

/// One plane of a YUV camera image: its bytes and the distance in bytes
/// between rows and between neighbouring samples of a row.
#[derive(Debug)]
pub struct Plane {
    pub data: Vec<u8>,
    pub row_stride: i32,
    pub pixel_stride: i32,
}

/// `x` held to the byte range `0..=255`.
pub open spec fn clamp_byte(x: int) -> u8 {
    if x < 0 {
        0
    } else if x > 255 {
        255
    } else {
        x as u8
    }
}

/// `n >> 8` (an arithmetic shift, that is `floor(n / 256)`) held to a byte.
pub open spec fn scaled_channel(n: int) -> u8 {
    clamp_byte(n / 256)
}

/// The position of sample `(row, col)` in a plane.
pub open spec fn plane_index(p: Plane, row: int, col: int) -> int {
    row * p.row_stride + col * p.pixel_stride
}

/// The sample at `(row, col)`, or `default` where the position lies outside the plane.
pub open spec fn sample(p: Plane, row: int, col: int, default: u8) -> u8 {
    let i = plane_index(p, row, col);
    if 0 <= i < p.data@.len() {
        p.data@[i]
    } else {
        default
    }
}

/// The position of sample `(row, col)` and its two terms all fit in an `i32`.
pub open spec fn index_fits(p: Plane, row: int, col: int) -> bool {
    &&& i32::MIN <= row * p.row_stride <= i32::MAX
    &&& i32::MIN <= col * p.pixel_stride <= i32::MAX
    &&& i32::MIN <= plane_index(p, row, col) <= i32::MAX
}

/// The luma sample position of pixel `(row, col)` fits in an `i32`.
pub open spec fn luma_index_fits(p: Plane, row: int, col: int) -> bool {
    index_fits(p, row, col)
}

/// The chroma sample position of pixel `(row, col)` (half resolution) fits in an `i32`.
pub open spec fn chroma_index_fits(p: Plane, row: int, col: int) -> bool {
    index_fits(p, row / 2, col / 2)
}

/// Every sample position that the conversion of a `width` by `height` frame
/// computes fits in an `i32`.
pub open spec fn yuv_indices_fit(y: Plane, u: Plane, v: Plane, width: i32, height: i32) -> bool {
    &&& forall|row: int, col: int|
        0 <= row < height && 0 <= col < width ==> #[trigger] luma_index_fits(y, row, col)
    &&& forall|row: int, col: int|
        0 <= row < height && 0 <= col < width ==> #[trigger] chroma_index_fits(u, row, col)
    &&& forall|row: int, col: int|
        0 <= row < height && 0 <= col < width ==> #[trigger] chroma_index_fits(v, row, col)
}

/// The RGBA bytes of pixel `(row, col)`: BT.601 limited range YUV to RGB in
/// 8-bit fixed point. Missing luma reads as 0 and missing chroma as 128.
pub open spec fn yuv_pixel(y: Plane, u: Plane, v: Plane, row: int, col: int) -> Seq<u8> {
    let c = sample(y, row, col, 0) - 16;
    let d = sample(u, row / 2, col / 2, 128) - 128;
    let e = sample(v, row / 2, col / 2, 128) - 128;
    seq![
        scaled_channel(298 * c + 409 * e + 128),
        scaled_channel(298 * c - 100 * d - 208 * e + 128),
        scaled_channel(298 * c + 516 * d + 128),
        255u8,
    ]
}

/// The number of pixels of a `width` by `height` frame.
pub open spec fn pixel_count(width: int, height: int) -> int {
    if width > 0 && height > 0 {
        width * height
    } else {
        0
    }
}

/// The RGBA bytes of the frame, pixel by pixel, row by row.
pub open spec fn spec_yuv_to_rgba(y: Plane, u: Plane, v: Plane, width: int, height: int) -> Seq<u8> {
    Seq::new(
        (4 * pixel_count(width, height)) as nat,
        |i: int| yuv_pixel(y, u, v, (i / 4) / width, (i / 4) % width)[i % 4],
    )
}

/// The sample at byte position `index` of a plane, or `default`.
fn sample_at(data: &Vec<u8>, index: i32, default: u8) -> (r: u8)
    ensures
        r == (if 0 <= index < data@.len() { data@[index as int] } else { default }),
{
    if index >= 0 && (index as usize) < data.len() {
        data[index as usize]
    } else {
        default
    }
}

/// `(n >> 8).clamp(0, 255)`.
fn channel(n: i32) -> (r: u8)
    ensures
        r == scaled_channel(n as int),
{
    if n < 0 {
        0
    } else {
        let q = n / 256;
        if q > 255 {
            255
        } else {
            q as u8
        }
    }
}

proof fn lemma_pixel_position(k: int, j: int, width: int, row: int, col: int)
    requires
        width > 0,
        0 <= col < width,
        0 <= row,
        k == row * width + col,
        0 <= j < 4,
    ensures
        (4 * k + j) / 4 == k,
        (4 * k + j) % 4 == j,
        k / width == row,
        k % width == col,
{
    lemma_fundamental_div_mod_converse(4 * k + j, 4, k, j);
    lemma_fundamental_div_mod_converse(k, width, row, col);
}

/// Converts a YUV 4:2:0 camera frame into RGBA bytes, one pixel after the
/// other, row by row, with alpha 255.
pub fn yuv_to_rgba(y: &Plane, u: &Plane, v: &Plane, width: i32, height: i32) -> (rgba: Vec<u8>)
    requires
        0 <= width * height * 4 <= i32::MAX,
        yuv_indices_fit(*y, *u, *v, width, height),
    ensures
        rgba@ == spec_yuv_to_rgba(*y, *u, *v, width as int, height as int),
{
    let mut rgba: Vec<u8> = Vec::new();
    if width <= 0 || height <= 0 {
        assert(rgba@ =~= spec_yuv_to_rgba(*y, *u, *v, width as int, height as int));
        return rgba;
    }
    let ghost w = width as int;
    let ghost h = height as int;
    let ghost f = |i: int| yuv_pixel(*y, *u, *v, (i / 4) / w, (i / 4) % w)[i % 4];
    let mut row: i32 = 0;
    while row < height
        invariant
            0 <= row <= height,
            width > 0,
            0 <= w * h * 4 <= i32::MAX,
            yuv_indices_fit(*y, *u, *v, width, height),
            w == width,
            h == height,
            f == (|i: int| yuv_pixel(*y, *u, *v, (i / 4) / w, (i / 4) % w)[i % 4]),
            rgba@ == Seq::new((4 * (row * w)) as nat, f),
        decreases height - row,
    {
        let mut col: i32 = 0;
        while col < width
            invariant
                0 <= row < height,
                0 <= col <= width,
                0 <= w * h * 4 <= i32::MAX,
                yuv_indices_fit(*y, *u, *v, width, height),
                w == width,
                h == height,
                f == (|i: int| yuv_pixel(*y, *u, *v, (i / 4) / w, (i / 4) % w)[i % 4]),
                rgba@ == Seq::new((4 * (row * w + col)) as nat, f),
            decreases width - col,
        {
            assert(luma_index_fits(*y, row as int, col as int));
            assert(chroma_index_fits(*u, row as int, col as int));
            assert(chroma_index_fits(*v, row as int, col as int));
            let yi = row * y.row_stride + col * y.pixel_stride;
            let ui = (row / 2) * u.row_stride + (col / 2) * u.pixel_stride;
            let vi = (row / 2) * v.row_stride + (col / 2) * v.pixel_stride;
            let y_val = sample_at(&y.data, yi, 0) as i32;
            let u_val = sample_at(&u.data, ui, 128) as i32;
            let v_val = sample_at(&v.data, vi, 128) as i32;
            let c = y_val - 16;
            let d = u_val - 128;
            let e = v_val - 128;
            let r = channel(298 * c + 409 * e + 128);
            let g = channel(298 * c - 100 * d - 208 * e + 128);
            let b = channel(298 * c + 516 * d + 128);
            let ghost before = rgba@;
            let ghost k = row * w + col;
            rgba.push(r);
            rgba.push(g);
            rgba.push(b);
            rgba.push(255);
            proof {
                let px = yuv_pixel(*y, *u, *v, row as int, col as int);
                assert(px =~= seq![r, g, b, 255u8]);
                assert forall|i: int| 0 <= i < 4 * (k + 1) implies #[trigger] rgba@[i] == f(i) by {
                    if i >= 4 * k {
                        lemma_pixel_position(k, i - 4 * k, w, row as int, col as int);
                    }
                }
                assert(4 * (row * w + col + 1) == 4 * (k + 1));
                assert(rgba@ =~= Seq::new((4 * (row * w + col + 1)) as nat, f));
            }
            col = col + 1;
        }
        proof {
            assert((row + 1) * w == row * w + w) by (nonlinear_arith);
        }
        row = row + 1;
    }
    proof {
        assert(pixel_count(w, h) == row * w) by (nonlinear_arith)
            requires
                row == h,
                w > 0,
                h > 0,
        ;
        assert(rgba@ =~= spec_yuv_to_rgba(*y, *u, *v, w, h));
    }
    rgba
}

/// Every source position that the rotation of a `width` by `height` BGRA
/// buffer reads (the last byte of each pixel) fits in a `usize`.
pub open spec fn bgra_indices_fit(width: int, height: int, bytes_per_row: int) -> bool {
    width > 0 && height > 0 ==> (height - 1) * bytes_per_row + (width - 1) * 4 + 3 <= usize::MAX
}

/// The start of source pixel `(x, y)` of a BGRA buffer.
pub open spec fn bgra_source(bytes_per_row: int, x: int, y: int) -> int {
    y * bytes_per_row + x * 4
}

/// The RGBA bytes that land at `(dest_x, dest_y)` of the image rotated by -90
/// degrees: they come from source pixel `(dest_y, height - 1 - dest_x)`, with
/// blue and red swapped; a source pixel whose last byte lies outside the buffer
/// leaves the destination all zero.
pub open spec fn rotated_pixel(src: Seq<u8>, height: int, bytes_per_row: int, dest_x: int, dest_y: int) -> Seq<u8> {
    let s = bgra_source(bytes_per_row, dest_y, height - 1 - dest_x);
    if s + 3 < src.len() {
        seq![src[s + 2], src[s + 1], src[s], src[s + 3]]
    } else {
        seq![0u8, 0u8, 0u8, 0u8]
    }
}

/// The RGBA bytes of the rotated image: `height` pixels per row and `width`
/// rows, row by row.
pub open spec fn spec_bgra_to_rgba_rotated(src: Seq<u8>, width: int, height: int, bytes_per_row: int) -> Seq<u8> {
    Seq::new(
        (4 * pixel_count(width, height)) as nat,
        |i: int| rotated_pixel(src, height, bytes_per_row, (i / 4) % height, (i / 4) / height)[i % 4],
    )
}

/// Converts a BGRA camera buffer of `height` rows of `width` pixels into the
/// RGBA bytes of the image turned by -90 degrees (`height` wide, `width` high):
/// source `(x, y)` goes to `(height - 1 - y, x)`.
pub fn bgra_to_rgba_rotated(src: &[u8], width: usize, height: usize, bytes_per_row: usize) -> (rgba: Vec<u8>)
    requires
        bgra_indices_fit(width as int, height as int, bytes_per_row as int),
        4 * width * height <= usize::MAX,
    ensures
        rgba@ == spec_bgra_to_rgba_rotated(src@, width as int, height as int, bytes_per_row as int),
{
    let mut rgba: Vec<u8> = Vec::new();
    if width == 0 || height == 0 {
        assert(rgba@ =~= spec_bgra_to_rgba_rotated(src@, width as int, height as int, bytes_per_row as int));
        return rgba;
    }
    let ghost w = width as int;
    let ghost h = height as int;
    let ghost bpr = bytes_per_row as int;
    let ghost f = |i: int| rotated_pixel(src@, h, bpr, (i / 4) % h, (i / 4) / h)[i % 4];
    let mut dest_y: usize = 0;
    while dest_y < width
        invariant
            0 <= dest_y <= width,
            width > 0,
            height > 0,
            bgra_indices_fit(w, h, bpr),
            4 * w * h <= usize::MAX,
            w == width,
            h == height,
            bpr == bytes_per_row,
            f == (|i: int| rotated_pixel(src@, h, bpr, (i / 4) % h, (i / 4) / h)[i % 4]),
            rgba@ == Seq::new((4 * (dest_y * h)) as nat, f),
        decreases width - dest_y,
    {
        let mut dest_x: usize = 0;
        while dest_x < height
            invariant
                0 <= dest_y < width,
                0 <= dest_x <= height,
                bgra_indices_fit(w, h, bpr),
                4 * w * h <= usize::MAX,
                w == width,
                h == height,
                bpr == bytes_per_row,
                f == (|i: int| rotated_pixel(src@, h, bpr, (i / 4) % h, (i / 4) / h)[i % 4]),
                rgba@ == Seq::new((4 * (dest_y * h + dest_x)) as nat, f),
            decreases height - dest_x,
        {
            let y = height - 1 - dest_x;
            let x = dest_y;
            proof {
                assert(y * bpr <= (h - 1) * bpr) by (nonlinear_arith)
                    requires
                        0 <= y <= h - 1,
                        bpr >= 0,
                ;
                assert(x * 4 <= (w - 1) * 4);
            }
            let s = y * bytes_per_row + x * 4;
            let ghost before = rgba@;
            let ghost k = dest_y * h + dest_x;
            if s + 3 < src.len() {
                rgba.push(src[s + 2]);
                rgba.push(src[s + 1]);
                rgba.push(src[s]);
                rgba.push(src[s + 3]);
            } else {
                rgba.push(0);
                rgba.push(0);
                rgba.push(0);
                rgba.push(0);
            }
            proof {
                assert forall|i: int| 0 <= i < 4 * (k + 1) implies #[trigger] rgba@[i] == f(i) by {
                    if i >= 4 * k {
                        lemma_pixel_position(k, i - 4 * k, h, dest_y as int, dest_x as int);
                    }
                }
                assert(4 * (dest_y * h + dest_x + 1) == 4 * (k + 1));
                assert(rgba@ =~= Seq::new((4 * (dest_y * h + dest_x + 1)) as nat, f));
            }
            dest_x = dest_x + 1;
        }
        proof {
            assert((dest_y + 1) * h == dest_y * h + h) by (nonlinear_arith);
        }
        dest_y = dest_y + 1;
    }
    proof {
        assert(pixel_count(w, h) == dest_y * h) by (nonlinear_arith)
            requires
                dest_y == w,
                w > 0,
                h > 0,
        ;
        assert(rgba@ =~= spec_bgra_to_rgba_rotated(src@, w, h, bpr));
    }
    rgba
}

/// Every converted pixel is opaque.
pub proof fn lemma_yuv_opaque(y: Plane, u: Plane, v: Plane, width: int, height: int, k: int)
    requires
        0 <= k < pixel_count(width, height),
    ensures
        spec_yuv_to_rgba(y, u, v, width, height)[4 * k + 3] == 255,
{
    lemma_fundamental_div_mod_converse(4 * k + 3, 4, k, 3);
}

/// Neutral chroma gives grey: where both chroma samples of a pixel are 128,
/// its red, green and blue are equal.
pub proof fn lemma_neutral_chroma_is_grey(y: Plane, u: Plane, v: Plane, row: int, col: int)
    requires
        sample(u, row / 2, col / 2, 128) == 128,
        sample(v, row / 2, col / 2, 128) == 128,
    ensures
        yuv_pixel(y, u, v, row, col)[0] == yuv_pixel(y, u, v, row, col)[1],
        yuv_pixel(y, u, v, row, col)[1] == yuv_pixel(y, u, v, row, col)[2],
{
}

/// A larger fixed-point value never gives a smaller channel, so brighter luma
/// never darkens a pixel, chroma held the same.
pub proof fn lemma_channel_monotone(n1: int, n2: int)
    requires
        n1 <= n2,
    ensures
        scaled_channel(n1) <= scaled_channel(n2),
{
    vstd::arithmetic::div_mod::lemma_div_is_ordered(n1, n2, 256);
}

/// Turning by -90 degrees moves source pixel `(x, y)` of a `width` by
/// `height` BGRA buffer to column `height - 1 - y`, row `x` of the RGBA image,
/// which is `height` pixels wide: its bytes there are red, green, blue and
/// alpha taken from the source's bytes 2, 1, 0 and 3, or all zero where the
/// source pixel runs past the end of the buffer.
pub proof fn lemma_rotation_moves_pixel(src: Seq<u8>, width: int, height: int, bytes_per_row: int, x: int, y: int)
    requires
        0 <= x < width,
        0 <= y < height,
        0 <= bytes_per_row,
    ensures
        ({
            let out = spec_bgra_to_rgba_rotated(src, width, height, bytes_per_row);
            let d = 4 * (x * height + (height - 1 - y));
            let p = y * bytes_per_row + 4 * x;
            &&& out.len() == 4 * width * height
            &&& 0 <= d && d + 3 < out.len()
            &&& p + 3 < src.len() ==> out[d] == src[p + 2] && out[d + 1] == src[p + 1] && out[d + 2] == src[p]
                && out[d + 3] == src[p + 3]
            &&& p + 3 >= src.len() ==> out[d] == 0 && out[d + 1] == 0 && out[d + 2] == 0 && out[d + 3] == 0
        }),
{
    let out = spec_bgra_to_rgba_rotated(src, width, height, bytes_per_row);
    let m = x * height + (height - 1 - y);
    assert(0 <= x * height) by (nonlinear_arith)
        requires
            0 <= x,
            0 < height,
    ;
    assert(m < width * height) by (nonlinear_arith)
        requires
            0 <= x < width,
            0 <= y < height,
            m == x * height + (height - 1 - y),
    ;
    assert(4 * (width * height) == 4 * width * height) by (nonlinear_arith);
    assert(0 <= y * bytes_per_row) by (nonlinear_arith)
        requires
            0 <= y,
            0 <= bytes_per_row,
    ;
    assert(out.len() == 4 * width * height);
    assert(bgra_source(bytes_per_row, x, y) == y * bytes_per_row + 4 * x) by (nonlinear_arith);
    assert forall|k: int| 0 <= k < 4 implies #[trigger] out[4 * m + k] == rotated_pixel(
        src,
        height,
        bytes_per_row,
        height - 1 - y,
        x,
    )[k] by {
        lemma_fundamental_div_mod_converse(4 * m + k, 4, m, k);
        lemma_fundamental_div_mod_converse(m, height, x, height - 1 - y);
    }
    assert(out[4 * m] == out[4 * m + 0]);
}

/// Pixel `(row, col)` of a `width` by `height` frame lands at pixel
/// `row * width + col` of the output, row by row, and its bytes are read from
/// luma sample `(row, col)` and chroma samples `(row / 2, col / 2)`: red from
/// luma and V, green from all three, blue from luma and U, alpha opaque.
pub proof fn lemma_yuv_pixel_placement(y: Plane, u: Plane, v: Plane, width: int, height: int, row: int, col: int)
    requires
        0 <= row < height,
        0 <= col < width,
    ensures
        ({
            let out = spec_yuv_to_rgba(y, u, v, width, height);
            let k = 4 * (row * width + col);
            let c = sample(y, row, col, 0) - 16;
            let d = sample(u, row / 2, col / 2, 128) - 128;
            let e = sample(v, row / 2, col / 2, 128) - 128;
            &&& 0 <= k && k + 3 < out.len()
            &&& out[k] == scaled_channel(298 * c + 409 * e + 128)
            &&& out[k + 1] == scaled_channel(298 * c - 100 * d - 208 * e + 128)
            &&& out[k + 2] == scaled_channel(298 * c + 516 * d + 128)
            &&& out[k + 3] == 255
        }),
{
    let out = spec_yuv_to_rgba(y, u, v, width, height);
    let m = row * width + col;
    assert(0 <= row * width) by (nonlinear_arith)
        requires
            0 <= row,
            0 < width,
    ;
    assert(m < width * height) by (nonlinear_arith)
        requires
            0 <= row < height,
            0 <= col < width,
            m == row * width + col,
    ;
    assert(out.len() == 4 * (width * height));
    assert forall|k: int| 0 <= k < 4 implies #[trigger] out[4 * m + k] == yuv_pixel(y, u, v, row, col)[k] by {
        lemma_fundamental_div_mod_converse(4 * m + k, 4, m, k);
        lemma_fundamental_div_mod_converse(m, width, row, col);
    }
    assert(out[4 * m] == out[4 * m + 0]);
}

/// Red does not depend on the U plane, nor blue on the V plane.
pub proof fn lemma_yuv_channels_independent(y: Plane, u1: Plane, u2: Plane, v1: Plane, v2: Plane, row: int, col: int)
    ensures
        yuv_pixel(y, u1, v1, row, col)[0] == yuv_pixel(y, u2, v1, row, col)[0],
        yuv_pixel(y, u1, v1, row, col)[2] == yuv_pixel(y, u1, v2, row, col)[2],
{
}

} // verus!
