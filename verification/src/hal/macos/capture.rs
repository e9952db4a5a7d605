//! Pixel conversion for window captures.
use vstd::prelude::*;
use vstd::arithmetic::div_mod::{lemma_fundamental_div_mod, lemma_mod_pos_bound};
use vstd::arithmetic::mul::{lemma_mul_inequality, lemma_mul_upper_bound};

verus! {

/// Channel `c` (red, green, blue, alpha) of pixel `p` of an RGBA image `width` pixels wide,
/// read from a BGRA source with `bytes_per_row` bytes per row and `bytes_per_pixel` bytes per
/// pixel; a pixel whose four source bytes are not all present is transparent black.
pub open spec fn rgba_channel(bytes: Seq<u8>, bytes_per_row: int, bytes_per_pixel: int, width: int, p: int, c: int) -> u8 {
    let start = (p / width) * bytes_per_row + (p % width) * bytes_per_pixel;
    if start + 3 < bytes.len() {
        if c == 0 {
            bytes[start + 2]
        } else if c == 1 {
            bytes[start + 1]
        } else if c == 2 {
            bytes[start]
        } else {
            bytes[start + 3]
        }
    } else {
        0
    }
}

proof fn lemma_pixel_offset(p: int, width: int, height: int, bytes_per_row: int, bytes_per_pixel: int)
    requires
        0 <= p < width * height,
        width > 0,
        height > 0,
        bytes_per_row >= 0,
        bytes_per_pixel >= 0,
    ensures
        0 <= p / width < height,
        0 <= p % width < width,
        (p / width) * bytes_per_row + (p % width) * bytes_per_pixel <= (height - 1) * bytes_per_row
            + (width - 1) * bytes_per_pixel,
{
    lemma_fundamental_div_mod(p, width);
    lemma_mod_pos_bound(p, width);
    let y = p / width;
    let x = p % width;
    assert(y >= 0) by (nonlinear_arith)
        requires
            p == width * y + x,
            0 <= x < width,
            p >= 0,
    ;
    assert(y < height) by (nonlinear_arith)
        requires
            p == width * y + x,
            0 <= x,
            p < width * height,
            width > 0,
    ;
    lemma_mul_inequality(y, height - 1, bytes_per_row);
    lemma_mul_inequality(x, width - 1, bytes_per_pixel);
}

/// Converts a BGRA pixel buffer to RGBA, row by row, `width * height` pixels of four bytes.
pub fn bgra_to_rgba(bytes: &Vec<u8>, width: u32, height: u32, bytes_per_row: usize, bits_per_pixel: usize) -> (r: Vec<u8>)
    requires
        width * height * 4 <= usize::MAX,
        width > 0 && height > 0 ==> (height - 1) * bytes_per_row + (width - 1) * (bits_per_pixel / 8) + 3
            <= usize::MAX,
    ensures
        r@.len() == width * height * 4,
        forall|k: int|
            0 <= k < r@.len() ==> #[trigger] r@[k] == rgba_channel(
                bytes@,
                bytes_per_row as int,
                (bits_per_pixel / 8) as int,
                width as int,
                k / 4,
                k % 4,
            ),
{
    let bpp: usize = bits_per_pixel / 8;
    let w = width as usize;
    let h = height as usize;
    assert(w * h <= usize::MAX) by (nonlinear_arith)
        requires
            w * h * 4 <= usize::MAX,
    ;
    let total: usize = w * h;
    let mut out: Vec<u8> = Vec::new();
    let mut p: usize = 0;
    while p < total
        invariant
            w == width,
            h == height,
            bpp == bits_per_pixel / 8,
            total == w * h,
            total * 4 <= usize::MAX,
            w > 0 && h > 0 ==> (h - 1) * bytes_per_row + (w - 1) * bpp + 3 <= usize::MAX,
            p <= total,
            out@.len() == p * 4,
            forall|k: int|
                0 <= k < out@.len() ==> #[trigger] out@[k] == rgba_channel(
                    bytes@,
                    bytes_per_row as int,
                    bpp as int,
                    w as int,
                    k / 4,
                    k % 4,
                ),
        decreases total - p,
    {
        assert(w > 0 && h > 0) by (nonlinear_arith)
            requires
                p < total,
                total == w * h,
        ;
        proof {
            lemma_pixel_offset(p as int, w as int, h as int, bytes_per_row as int, bpp as int);
        }
        let y = p / w;
        let x = p % w;
        let start = y * bytes_per_row + x * bpp;
        let ghost before = out@;
        if start + 3 < bytes.len() {
            out.push(bytes[start + 2]);
            out.push(bytes[start + 1]);
            out.push(bytes[start]);
            out.push(bytes[start + 3]);
        } else {
            out.push(0);
            out.push(0);
            out.push(0);
            out.push(0);
        }
        assert forall|k: int| 0 <= k < out@.len() implies #[trigger] out@[k] == rgba_channel(
            bytes@,
            bytes_per_row as int,
            bpp as int,
            w as int,
            k / 4,
            k % 4,
        ) by {
            if k >= before.len() {
                assert(k / 4 == p);
            } else {
                assert(out@[k] == before[k]);
            }
        }
        assert((p + 1) * 4 <= total * 4) by (nonlinear_arith)
            requires
                p < total,
        ;
        p = p + 1;
    }
    assert(out@.len() == width * height * 4);
    out
}

/// A capture that names neither an application nor a window is of the frontmost
/// application's window.
pub fn captures_frontmost(app_id: Option<&str>, window_id: Option<u64>) -> (r: bool)
    ensures
        r == (app_id is None && window_id is None),
{
    app_id.is_none() && window_id.is_none()
}

} // verus!
