//! The computing half of the frame driver: assembling the RGBA pixel
//! buffer from the colors the rendering collaborator produced, and reading
//! one channel back out of it for the diagnostic dump.

use vstd::prelude::*;

verus! {

/// Full opacity, written as the alpha byte of every pixel.
pub const OPAQUE_ALPHA: u8 = 255;

/// Overwrite `buffer` with the RGBA bytes of `colors`, one pixel per color
/// in order: red, green, blue, then the constant full-opacity alpha. The
/// buffer's allocation is reused across frames; its contents after the call
/// are exactly the four bytes of each color in turn.
pub fn fill_pixel_buffer(colors: &Vec<(u8, u8, u8)>, buffer: &mut Vec<u8>)
    requires
        4 * colors@.len() <= usize::MAX,
    ensures
        final(buffer)@.len() == 4 * colors@.len(),
        forall|i: int|
            0 <= i < colors@.len() ==> {
                &&& final(buffer)@[4 * i] == (#[trigger] colors@[i]).0
                &&& final(buffer)@[4 * i + 1] == colors@[i].1
                &&& final(buffer)@[4 * i + 2] == colors@[i].2
                &&& final(buffer)@[4 * i + 3] == OPAQUE_ALPHA
            },
{
    buffer.clear();
    let n = colors.len();
    let mut i: usize = 0;
    while i < n
        invariant
            i <= n,
            n == colors@.len(),
            4 * n <= usize::MAX,
            buffer@.len() == 4 * i,
            forall|j: int|
                0 <= j < i ==> {
                    &&& buffer@[4 * j] == (#[trigger] colors@[j]).0
                    &&& buffer@[4 * j + 1] == colors@[j].1
                    &&& buffer@[4 * j + 2] == colors@[j].2
                    &&& buffer@[4 * j + 3] == OPAQUE_ALPHA
                },
        decreases n - i,
    {
        let color = colors[i];
        buffer.push(color.0);
        buffer.push(color.1);
        buffer.push(color.2);
        buffer.push(OPAQUE_ALPHA);
        i = i + 1;
    }
}

/// Read every value of one channel (0 red, 1 green, 2 blue, 3 alpha) out
/// of an RGBA buffer, pixel by pixel; a trailing fragment of less than four
/// bytes is ignored.
pub fn channel_values(buffer: &Vec<u8>, channel: usize) -> (out: Vec<u8>)
    requires
        channel < 4,
    ensures
        out@.len() == buffer@.len() / 4,
        forall|i: int| 0 <= i < out@.len() ==> #[trigger] out@[i] == buffer@[4 * i + channel],
{
    let n = buffer.len() / 4;
    let mut out: Vec<u8> = Vec::new();
    let mut i: usize = 0;
    while i < n
        invariant
            i <= n,
            channel < 4,
            n == buffer@.len() / 4,
            buffer@.len() <= usize::MAX,
            out@.len() == i,
            forall|j: int| 0 <= j < i ==> #[trigger] out@[j] == buffer@[4 * j + channel],
        decreases n - i,
    {
        assert(4 * i + channel < buffer@.len());
        out.push(buffer[4 * i + channel]);
        i = i + 1;
    }
    out
}

} // verus!
