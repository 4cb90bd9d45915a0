//! The compute half of the display adapter: expanding the monochrome
//! video-RAM bitmap (eight horizontally adjacent pixels per byte) into one
//! color word per pixel.  Putting the result on a screen is the windowing
//! layer's part.

use vstd::prelude::*;
use vstd::pervasive::VecAdditionalExecFns;

verus! {

/// The mask selecting pixel `k` of a video byte.
pub open spec fn spec_mask(k: int) -> u8 {
    if k == 0 {
        1
    } else if k == 1 {
        2
    } else if k == 2 {
        4
    } else if k == 3 {
        8
    } else if k == 4 {
        16
    } else if k == 5 {
        32
    } else if k == 6 {
        64
    } else {
        128
    }
}

/// The color of pixel `i` of the bitmap `v`: white where the bit is set,
/// black where it is clear.
pub open spec fn spec_pixel(v: Seq<u8>, i: int) -> u32 {
    if v[i / 8] & spec_mask(i % 8) == 0 {
        0
    } else {
        0xFFFF_FFFF
    }
}

fn bit_mask(k: usize) -> (m: u8)
    requires
        k < 8,
    ensures
        m == spec_mask(k as int),
{
    if k == 0 {
        1
    } else if k == 1 {
        2
    } else if k == 2 {
        4
    } else if k == 3 {
        8
    } else if k == 4 {
        16
    } else if k == 5 {
        32
    } else if k == 6 {
        64
    } else {
        128
    }
}

/// Black for a clear pixel bit, white for a set one.
pub fn get_color(bit: u8) -> (c: u32)
    ensures
        c == (if bit == 0 {
            0u32
        } else {
            0xFFFF_FFFFu32
        }),
{
    if bit == 0 {
        0
    } else {
        0xFFFF_FFFF
    }
}

/// Renders the bitmap into a pixel buffer, one color word per bit of the
/// video RAM, in the same linear order the bus uses.
pub fn render_buffer(video: &Vec<u8>, buffer: &mut Vec<u32>)
    requires
        old(buffer)@.len() == 8 * video@.len(),
    ensures
        final(buffer)@.len() == old(buffer)@.len(),
        forall|i: int|
            0 <= i < final(buffer)@.len() ==> final(buffer)@[i] == spec_pixel(video@, i),
{
    let mut i: usize = 0;
    while i < buffer.len()
        invariant
            buffer@.len() == 8 * video@.len(),
            i <= buffer@.len(),
            forall|j: int| 0 <= j < i ==> buffer@[j] == spec_pixel(video@, j),
        decreases buffer@.len() - i,
    {
        let byte = video[i / 8];
        let c = get_color(byte & bit_mask(i % 8));
        buffer.set(i, c);
        i = i + 1;
    }
}

} // verus!
