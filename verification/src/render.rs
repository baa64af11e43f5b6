//! Conversion of the framebuffer into the byte image the presentation
//! layer uploads: rows flipped so that the machine's top row lands at
//! the bottom of the texture, lit pixels mapped to the full byte value.

use vstd::prelude::*;

verus! {

/// The image byte for one framebuffer entry.
pub open spec fn pixel_byte(g: u8) -> u8 {
    if g == 1 {
        255u8
    } else {
        0u8
    }
}

/// Where the framebuffer pixel `(xx, yy)` lands in the flipped image.
pub open spec fn image_pos(yy: int, xx: int) -> int {
    (31 - yy) * 64 + xx
}

/// Where the framebuffer stores the pixel `(xx, yy)`.
pub open spec fn gfx_pos(yy: int, xx: int) -> int {
    yy * 64 + xx
}

/// The vertically flipped one-byte-per-pixel image of the framebuffer.
pub fn frame_image(gfx: &Vec<u8>) -> (img: Vec<u8>)
    requires
        gfx@.len() == 2048,
    ensures
        img@.len() == 2048,
        forall|yy: int, xx: int|
            0 <= yy < 32 && 0 <= xx < 64 ==> #[trigger] img@[image_pos(yy, xx)] == pixel_byte(
                gfx@[gfx_pos(yy, xx)],
            ),
{
    let mut img = crate::state::filled_u8(2048, 0);
    let mut y: usize = 0;
    while y < 32
        invariant
            y <= 32,
            gfx@.len() == 2048,
            img@.len() == 2048,
            forall|yy: int, xx: int|
                0 <= yy < y && 0 <= xx < 64 ==> #[trigger] img@[image_pos(yy, xx)]
                    == pixel_byte(gfx@[gfx_pos(yy, xx)]),
        decreases 32 - y,
    {
        let mut x: usize = 0;
        while x < 64
            invariant
                y < 32,
                x <= 64,
                gfx@.len() == 2048,
                img@.len() == 2048,
                forall|yy: int, xx: int|
                    0 <= yy < y && 0 <= xx < 64 ==> #[trigger] img@[image_pos(yy, xx)]
                        == pixel_byte(gfx@[gfx_pos(yy, xx)]),
                forall|xx: int|
                    0 <= xx < x ==> #[trigger] img@[image_pos(y as int, xx)]
                        == pixel_byte(gfx@[gfx_pos(y as int, xx)]),
            decreases 64 - x,
        {
            let val: u8 = if gfx[y * 64 + x] == 1 {
                255
            } else {
                0
            };
            img.set((31 - y) * 64 + x, val);
            x = x + 1;
        }
        y = y + 1;
    }
    img
}

} // verus!
