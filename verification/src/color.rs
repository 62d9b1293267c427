//! Pixel colors in the two 16-bit encodings the pipeline meets.
//!
//! The rasterizer hands the bridge pixels in RGB565 order (red in the
//! topmost five bits), while the display expects BGR565 (blue in the
//! topmost five bits). Both share the six green bits in the middle, so
//! converting is swapping the two five-bit end fields.

use vstd::prelude::*;

verus! {

/// Pure red in BGR565 (red occupies the lowest five bits).
pub const BGR_RED: u16 = 0x001f;

/// Pure green in BGR565 (green occupies the middle six bits).
pub const BGR_GREEN: u16 = 0x07e0;

/// Pure blue in BGR565 (blue occupies the topmost five bits).
pub const BGR_BLUE: u16 = 0xf800;

/// Black in BGR565.
pub const BGR_BLACK: u16 = 0x0000;

/// The red channel of an RGB565 pixel.
pub open spec fn spec_rgb565_red(p: u16) -> u16 {
    (p >> 11) & 0x1f
}

/// The green channel of an RGB565 pixel.
pub open spec fn spec_rgb565_green(p: u16) -> u16 {
    (p >> 5) & 0x3f
}

/// The blue channel of an RGB565 pixel.
pub open spec fn spec_rgb565_blue(p: u16) -> u16 {
    p & 0x1f
}

/// The red channel of a BGR565 pixel.
pub open spec fn spec_bgr565_red(p: u16) -> u16 {
    p & 0x1f
}

/// The green channel of a BGR565 pixel.
pub open spec fn spec_bgr565_green(p: u16) -> u16 {
    (p >> 5) & 0x3f
}

/// The blue channel of a BGR565 pixel.
pub open spec fn spec_bgr565_blue(p: u16) -> u16 {
    (p >> 11) & 0x1f
}

/// An RGB565 raw value re-encoded as BGR565: the five red bits and the
/// five blue bits trade places, the six green bits stay.
pub open spec fn spec_rgb565_to_bgr565(p: u16) -> u16 {
    ((p & 0x1f) << 11) | (p & 0x07e0) | ((p >> 11) & 0x1f)
}

/// Re-encode one rasterizer pixel (RGB565) in the display's native
/// order (BGR565).
pub fn rgb565_to_bgr565(p: u16) -> (r: u16)
    ensures
        r == spec_rgb565_to_bgr565(p),
{
    ((p & 0x1f) << 11) | (p & 0x07e0) | ((p >> 11) & 0x1f)
}

/// The re-encoding keeps every channel value: the red, green and blue
/// of the BGR565 result are the red, green and blue of the RGB565
/// argument.
pub proof fn lemma_rgb565_to_bgr565_keeps_channels(p: u16)
    ensures
        spec_bgr565_red(spec_rgb565_to_bgr565(p)) == spec_rgb565_red(p),
        spec_bgr565_green(spec_rgb565_to_bgr565(p)) == spec_rgb565_green(p),
        spec_bgr565_blue(spec_rgb565_to_bgr565(p)) == spec_rgb565_blue(p),
{
    assert((((p & 0x1f) << 11) | (p & 0x07e0) | ((p >> 11) & 0x1f)) & 0x1f == (p >> 11) & 0x1f)
        by (bit_vector);
    assert(((((p & 0x1f) << 11) | (p & 0x07e0) | ((p >> 11) & 0x1f)) >> 5) & 0x3f == (p >> 5)
        & 0x3f) by (bit_vector);
    assert(((((p & 0x1f) << 11) | (p & 0x07e0) | ((p >> 11) & 0x1f)) >> 11) & 0x1f == p & 0x1f)
        by (bit_vector);
}

/// Swapping the end fields twice gives the original pixel back.
pub proof fn lemma_rgb565_to_bgr565_involutes(p: u16)
    ensures
        spec_rgb565_to_bgr565(spec_rgb565_to_bgr565(p)) == p,
{
    let q = ((p & 0x1f) << 11) | (p & 0x07e0) | ((p >> 11) & 0x1f);
    assert((((q & 0x1f) << 11) | (q & 0x07e0) | ((q >> 11) & 0x1f)) == p) by (bit_vector)
        requires
            q == ((p & 0x1f) << 11) | (p & 0x07e0) | ((p >> 11) & 0x1f),
    ;
}

} // verus!
