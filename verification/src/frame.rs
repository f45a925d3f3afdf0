//! The RGB24 frame buffer handed to the video sink: 256x240, origin
//! top-left, three bytes per pixel.

use vstd::prelude::*;

verus! {

pub const FRAME_WIDTH: usize = 256;
pub const FRAME_HEIGHT: usize = 240;

pub struct Frame {
    pub data: Vec<u8>,
}

pub open spec fn frame_wf(f: Frame) -> bool {
    f.data.len() == 184320
}

/// Byte offset of a pixel: stride is 256 * 3.
pub open spec fn pixel_base(x: int, y: int) -> int {
    y * 768 + x * 3
}

impl Frame {
    pub fn new() -> (r: Frame)
        ensures
            frame_wf(r),
            r.data@ == Seq::new(184320, |i: int| 0u8),
    {
        Frame { data: crate::util::zero_bytes(184320) }
    }

    /// Write one pixel's three channel bytes.
    pub fn set_pixel(&mut self, x: usize, y: usize, rgb: (u8, u8, u8))
        requires
            frame_wf(*old(self)),
            x < 256,
            y < 240,
        ensures
            frame_wf(*final(self)),
            final(self).data@ == old(self).data@.update(pixel_base(x as int, y as int), rgb.0)
                .update(pixel_base(x as int, y as int) + 1, rgb.1).update(
                pixel_base(x as int, y as int) + 2,
                rgb.2,
            ),
    {
        let base = y * 768 + x * 3;
        self.data[base] = rgb.0;
        self.data[base + 1] = rgb.1;
        self.data[base + 2] = rgb.2;
    }
}

} // verus!
