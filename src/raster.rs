use vstd::arithmetic::div_mod::lemma_fundamental_div_mod_converse;
use vstd::prelude::*;

verus! {

/// Splits a 16-bit channel sample into its big-endian bytes: high byte, then low byte.
pub fn split_channel16(v: u16) -> (r: (u8, u8))
    ensures
        r.0 == v / 256,
        r.1 == v % 256,
{
    let hi = v >> 8u16;
    let lo = v & 0xffu16;
    assert(hi == v / 256 && lo == v % 256) by (bit_vector)
        requires
            hi == v >> 8u16,
            lo == v & 0xffu16,
    ;
    (hi as u8, lo as u8)
}

/// Byte `j` (0 to 5) of a 16-bit RGB pixel in the output stream: red, green and blue
/// in turn, each channel high byte first.
pub open spec fn rgb16_byte(p: (u16, u16, u16), j: int) -> u8 {
    let c = if j < 2 {
        p.0
    } else if j < 4 {
        p.1
    } else {
        p.2
    };
    if j % 2 == 0 {
        (c / 256) as u8
    } else {
        (c % 256) as u8
    }
}

/// Byte `j` (0 to 2) of an 8-bit RGB pixel in the output stream: red, green, blue.
pub open spec fn rgb8_byte(p: (u8, u8, u8), j: int) -> u8 {
    if j == 0 {
        p.0
    } else if j == 1 {
        p.1
    } else {
        p.2
    }
}

/// Lays 16-bit RGB pixels out as the byte stream an image encoder takes at bit depth
/// sixteen: six bytes per pixel, each channel big-endian.
pub fn pack_rgb16(pixels: &Vec<(u16, u16, u16)>) -> (r: Vec<u8>)
    requires
        6 * pixels@.len() <= usize::MAX,
    ensures
        r@.len() == 6 * pixels@.len(),
        forall|k: int| 0 <= k < r@.len() ==> #[trigger] r@[k] == rgb16_byte(pixels@[k / 6], k % 6),
{
    let mut out: Vec<u8> = Vec::new();
    let mut i: usize = 0;
    while i < pixels.len()
        invariant
            i <= pixels@.len(),
            6 * pixels@.len() <= usize::MAX,
            out@.len() == 6 * i,
            forall|k: int| 0 <= k < out@.len() ==> #[trigger] out@[k] == rgb16_byte(pixels@[k / 6], k % 6),
        decreases pixels@.len() - i,
    {
        let (red, green, blue) = pixels[i];
        let (r_hi, r_lo) = split_channel16(red);
        let (g_hi, g_lo) = split_channel16(green);
        let (b_hi, b_lo) = split_channel16(blue);
        out.push(r_hi);
        out.push(r_lo);
        out.push(g_hi);
        out.push(g_lo);
        out.push(b_hi);
        out.push(b_lo);
        assert forall|k: int| 0 <= k < out@.len() implies #[trigger] out@[k] == rgb16_byte(
            pixels@[k / 6],
            k % 6,
        ) by {
            if k >= 6 * i {
                assert(k / 6 == i);
            }
        }
        i = i + 1;
    }
    out
}

/// Lays 8-bit RGB pixels out as the byte stream an image encoder takes at bit depth
/// eight: three bytes per pixel.
pub fn pack_rgb8(pixels: &Vec<(u8, u8, u8)>) -> (r: Vec<u8>)
    requires
        3 * pixels@.len() <= usize::MAX,
    ensures
        r@.len() == 3 * pixels@.len(),
        forall|k: int| 0 <= k < r@.len() ==> #[trigger] r@[k] == rgb8_byte(pixels@[k / 3], k % 3),
{
    let mut out: Vec<u8> = Vec::new();
    let mut i: usize = 0;
    while i < pixels.len()
        invariant
            i <= pixels@.len(),
            3 * pixels@.len() <= usize::MAX,
            out@.len() == 3 * i,
            forall|k: int| 0 <= k < out@.len() ==> #[trigger] out@[k] == rgb8_byte(pixels@[k / 3], k % 3),
        decreases pixels@.len() - i,
    {
        let (red, green, blue) = pixels[i];
        out.push(red);
        out.push(green);
        out.push(blue);
        assert forall|k: int| 0 <= k < out@.len() implies #[trigger] out@[k] == rgb8_byte(
            pixels@[k / 3],
            k % 3,
        ) by {
            if k >= 3 * i {
                assert(k / 3 == i);
            }
        }
        i = i + 1;
    }
    out
}

/// The pixel `(x, y)` emitted at position `k` of an image `width` pixels wide and `height`
/// high. Rows go out top first: `y` counts up from the bottom row, so the first row
/// emitted is `height - 1`, and within a row `x` counts up from the left.
pub open spec fn scan_pixel(width: int, height: int, k: int) -> (int, int) {
    (k % width, height - 1 - k / width)
}

/// The position at which pixel `(x, y)` is emitted: the inverse of `scan_pixel` on the
/// image's pixels.
pub open spec fn scan_index(width: int, height: int, x: int, y: int) -> int {
    (height - 1 - y) * width + x
}

/// Each pixel of the image is emitted at exactly one position, `scan_index`, and that
/// position lies within the `width * height` emitted.
pub proof fn lemma_scan_index(width: int, height: int, x: int, y: int)
    requires
        0 <= x < width,
        0 <= y < height,
    ensures
        0 <= scan_index(width, height, x, y) < width * height,
        scan_pixel(width, height, scan_index(width, height, x, y)) == (x, y),
{
    let row = height - 1 - y;
    assert(0 <= row * width + x < width * height) by (nonlinear_arith)
        requires
            0 <= x < width,
            0 <= row < height,
    ;
    lemma_fundamental_div_mod_converse(row * width + x, width, row, x);
}

/// Every pixel of a `width` by `height` image in the order the encoder takes them:
/// row `height - 1` first, down to row 0, each row left to right.
pub fn scan_order(width: u32, height: u32) -> (r: Vec<(u32, u32)>)
    requires
        width as int * height as int <= usize::MAX,
    ensures
        r@.len() == width as int * height as int,
        forall|k: int|
            0 <= k < r@.len() ==> {
                let (x, y) = #[trigger] r@[k];
                (x as int, y as int) == scan_pixel(width as int, height as int, k)
            },
        forall|x: u32, y: u32|
            x < width && y < height ==> r@[scan_index(width as int, height as int, x as int, y as int)]
                == (x, y),
{
    let mut out: Vec<(u32, u32)> = Vec::new();
    let mut y: u32 = height;
    while y > 0
        invariant
            y <= height,
            width as int * height as int <= usize::MAX,
            out@.len() == width as int * (height - y),
            forall|k: int|
                0 <= k < out@.len() ==> {
                    let (px, py) = #[trigger] out@[k];
                    (px as int, py as int) == scan_pixel(width as int, height as int, k)
                },
        decreases y,
    {
        y = y - 1;
        let row: u32 = height - 1 - y;
        let mut x: u32 = 0;
        while x < width
            invariant
                y < height,
                row == height - 1 - y,
                x <= width,
                width as int * height as int <= usize::MAX,
                out@.len() == width as int * row + x,
                forall|k: int|
                    0 <= k < out@.len() ==> {
                        let (px, py) = #[trigger] out@[k];
                        (px as int, py as int) == scan_pixel(width as int, height as int, k)
                    },
            decreases width - x,
        {
            let ghost k = out@.len() as int;
            proof {
                lemma_fundamental_div_mod_converse(k, width as int, row as int, x as int);
                assert(width as int * row + x < width as int * height) by (nonlinear_arith)
                    requires
                        x < width,
                        row < height,
                ;
            }
            out.push((x, y));
            x = x + 1;
        }
        assert(width as int * row + width == width as int * (height - y)) by (nonlinear_arith)
            requires
                row == height - 1 - y,
        ;
    }
    assert forall|x: u32, y: u32| x < width && y < height implies out@[scan_index(
        width as int,
        height as int,
        x as int,
        y as int,
    )] == (x, y) by {
        lemma_scan_index(width as int, height as int, x as int, y as int);
    }
    out
}

} // verus!
