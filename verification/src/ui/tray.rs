//! The tray icon's picture.
//!
//! A StatusNotifier host takes an icon as raw pixels, four bytes each in
//! alpha, red, green, blue order, row after row. A decoded image holds its
//! pixels as red, green, blue and, when it has one, alpha, with each row
//! starting `rowstride` bytes after the previous one. Decoding the embedded
//! image happens outside this crate; the layout conversion is done here.

use vstd::prelude::*;
use vstd::arithmetic::div_mod::lemma_fundamental_div_mod_converse;

verus! {

/// Whether the rows of a `width` by `height` image with `channels` bytes per
/// pixel, each starting `rowstride` bytes after the last, lie inside `len`
/// bytes.
pub open spec fn rows_fit(len: nat, width: nat, height: nat, channels: nat, rowstride: nat) -> bool {
    height == 0 || (height - 1) * rowstride + width * channels <= len
}

/// Byte `i` of the converted icon: pixel `i / 4`, counted row by row, and of
/// that pixel alpha (or fully opaque when the image has no alpha), red, green
/// or blue, as `i % 4` is 0, 1, 2 or 3.
pub open spec fn argb_byte(
    pixels: Seq<u8>,
    width: nat,
    channels: nat,
    rowstride: nat,
    i: int,
) -> u8 {
    let pixel = i / 4;
    let start = (pixel / (width as int)) * rowstride + (pixel % (width as int)) * channels;
    if i % 4 == 0 {
        if channels >= 4 {
            pixels[start + 3]
        } else {
            255
        }
    } else {
        pixels[start + i % 4 - 1]
    }
}

/// Where pixel `x` of row `y` starts, and that it is inside the image.
proof fn lemma_pixel_start(
    len: nat,
    width: nat,
    height: nat,
    channels: nat,
    rowstride: nat,
    y: nat,
    x: nat,
)
    requires
        rows_fit(len, width, height, channels, rowstride),
        channels >= 3,
        y < height,
        x < width,
    ensures
        y * rowstride + x * channels + channels <= len,
        y * rowstride + x * channels + 3 <= len,
        y * rowstride <= len,
        x * channels <= len,
{
    assert(y * rowstride <= (height - 1) * rowstride) by (nonlinear_arith)
        requires
            y <= height - 1,
    ;
    assert(x * channels + channels <= width * channels) by (nonlinear_arith)
        requires
            x + 1 <= width,
    ;
    assert(0 <= y * rowstride && 0 <= x * channels) by (nonlinear_arith);
}

/// Bytes `4 * p .. 4 * p + 4` of the icon are pixel `p`, which is pixel `x`
/// of row `y` when `p == y * width + x`.
proof fn lemma_pixel_bytes(width: nat, y: nat, x: nat, k: nat)
    requires
        x < width,
        k < 4,
    ensures
        (4 * (y * width + x) + k) / 4 == y * width + x,
        (4 * (y * width + x) + k) % 4 == k,
        (y * width + x) / width == y,
        (y * width + x) % width == x,
{
    lemma_fundamental_div_mod_converse(
        (4 * (y * width + x) + k) as int,
        4,
        (y * width + x) as int,
        k as int,
    );
    lemma_fundamental_div_mod_converse((y * width + x) as int, width as int, y as int, x as int);
}

/// The icon's bytes in the host's layout, from a decoded image's pixels.
pub fn argb_pixels(
    pixels: &[u8],
    width: usize,
    height: usize,
    channels: usize,
    rowstride: usize,
) -> (data: Vec<u8>)
    requires
        channels >= 3,
        rows_fit(pixels@.len(), width as nat, height as nat, channels as nat, rowstride as nat),
    ensures
        data@.len() == 4 * (width * height),
        forall|i: int|
            0 <= i < data@.len() ==> #[trigger] data@[i] == argb_byte(
                pixels@,
                width as nat,
                channels as nat,
                rowstride as nat,
                i,
            ),
{
    let mut data: Vec<u8> = Vec::new();
    let mut y: usize = 0;
    while y < height
        invariant
            channels >= 3,
            rows_fit(pixels@.len(), width as nat, height as nat, channels as nat, rowstride as nat),
            y <= height,
            data@.len() == 4 * (width * y),
            forall|i: int|
                0 <= i < data@.len() ==> #[trigger] data@[i] == argb_byte(
                    pixels@,
                    width as nat,
                    channels as nat,
                    rowstride as nat,
                    i,
                ),
        decreases height - y,
    {
        let mut x: usize = 0;
        while x < width
            invariant
                channels >= 3,
                rows_fit(pixels@.len(), width as nat, height as nat, channels as nat, rowstride as nat),
                y < height,
                x <= width,
                data@.len() == 4 * (width * y + x),
                forall|i: int|
                    0 <= i < data@.len() ==> #[trigger] data@[i] == argb_byte(
                        pixels@,
                        width as nat,
                        channels as nat,
                        rowstride as nat,
                        i,
                    ),
            decreases width - x,
        {
            proof {
                lemma_pixel_start(
                    pixels@.len(),
                    width as nat,
                    height as nat,
                    channels as nat,
                    rowstride as nat,
                    y as nat,
                    x as nat,
                );
                assert(width * y + x == y * width + x) by (nonlinear_arith);
                assert(pixels@.len() == pixels.len());
                assert(y * rowstride <= pixels@.len());
                assert(x * channels <= pixels@.len());
            }
            let start = y * rowstride + x * channels;
            let alpha = if channels >= 4 {
                pixels[start + 3]
            } else {
                255
            };
            let ghost before = data@;
            data.push(alpha);
            data.push(pixels[start]);
            data.push(pixels[start + 1]);
            data.push(pixels[start + 2]);
            proof {
                assert forall|i: int| 0 <= i < data@.len() implies #[trigger] data@[i] == argb_byte(
                    pixels@,
                    width as nat,
                    channels as nat,
                    rowstride as nat,
                    i,
                ) by {
                    if i >= before.len() {
                        let k = (i - before.len()) as nat;
                        lemma_pixel_bytes(width as nat, y as nat, x as nat, k);
                    }
                }
            }
            x = x + 1;
        }
        proof {
            assert(width * y + width == width * (y + 1)) by (nonlinear_arith);
        }
        y = y + 1;
    }
    data
}

} // verus!
