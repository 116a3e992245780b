//! The loading screen shown while the engine starts.
use vstd::prelude::*;

verus! {

/// The color of the loading screen, as `0x00RRGGBB`: red 255, green and
/// blue 100.
pub open spec fn spec_loading_color() -> u32 {
    100u32 | (100u32 << 8u32) | (255u32 << 16u32)
}

/// Paints every pixel of a frame buffer with the loading screen color.
pub fn display_image(buffer: &mut [u32])
    ensures
        final(buffer)@.len() == old(buffer)@.len(),
        forall|i: int| 0 <= i < final(buffer)@.len() ==> #[trigger] final(buffer)@[i] == spec_loading_color(),
{
    let red: u32 = 255;
    let green: u32 = 100;
    let blue: u32 = 100;
    let color = blue | (green << 8) | (red << 16);
    let mut i: usize = 0;
    while i < buffer.len()
        invariant
            i <= buffer@.len(),
            buffer@.len() == old(buffer)@.len(),
            color == spec_loading_color(),
            forall|j: int| 0 <= j < i ==> #[trigger] buffer@[j] == spec_loading_color(),
        decreases buffer@.len() - i,
    {
        buffer[i] = color;
        i = i + 1;
    }
}

} // verus!
