//! Framebuffer format conversion for display surfaces.
use vstd::prelude::*;

verus! {

/// The RGBA bytes of an ARGB8888 pixel.
pub open spec fn rgba_of(argb: u32) -> Seq<u8> {
    seq![(argb >> 16u32) as u8, (argb >> 8u32) as u8, argb as u8, (argb >> 24u32) as u8]
}

/// Convert ARGB8888 pixels to RGBA8888 bytes (red, green, blue, alpha per
/// pixel), as canvas image data wants them.
pub fn argb_to_rgba(framebuffer: &[u32]) -> (r: Vec<u8>)
    requires
        framebuffer@.len() * 4 <= usize::MAX,
    ensures
        r@.len() == framebuffer@.len() * 4,
        forall|i: int, k: int|
            0 <= i < framebuffer@.len() && 0 <= k < 4 ==> #[trigger] r@[4 * i + k] == rgba_of(
                framebuffer@[i],
            )[k],
{
    let mut rgba: Vec<u8> = Vec::new();
    let mut i: usize = 0;
    while i < framebuffer.len()
        invariant
            i <= framebuffer@.len(),
            rgba@.len() == 4 * i,
            forall|j: int, k: int|
                0 <= j < i && 0 <= k < 4 ==> #[trigger] rgba@[4 * j + k] == rgba_of(framebuffer@[j])[k],
        decreases framebuffer@.len() - i,
    {
        let argb = framebuffer[i];
        let a = ((argb >> 24) & 0xFF) as u8;
        let r = ((argb >> 16) & 0xFF) as u8;
        let g = ((argb >> 8) & 0xFF) as u8;
        let b = (argb & 0xFF) as u8;
        assert(a == (argb >> 24u32) as u8 && r == (argb >> 16u32) as u8 && g == (argb >> 8u32) as u8
            && b == argb as u8) by (bit_vector)
            requires
                a == ((argb >> 24u32) & 0xFF) as u8,
                r == ((argb >> 16u32) & 0xFF) as u8,
                g == ((argb >> 8u32) & 0xFF) as u8,
                b == (argb & 0xFF) as u8,
        ;
        rgba.push(r);
        rgba.push(g);
        rgba.push(b);
        rgba.push(a);
        i = i + 1;
    }
    rgba
}

} // verus!
