//! The frame a worker hands to the display consumer: a tightly packed pixel
//! buffer of the fixed output format, tagged with the camera it came from.

use vstd::prelude::*;
use crate::FRAME_BYTES;
use crate::FRAME_HEIGHT;
use crate::ROW_BYTES;

verus! {

/// One decoded, rescaled frame: an owned pixel buffer of exactly the fixed
/// output size, packed row by row, plus the source camera's address.
pub struct Frame {
    pub data: Vec<u8>,
    pub url: String,
}

impl Frame {
    /// A frame of the fixed output format holds exactly the packed size.
    pub open spec fn wf(&self) -> bool {
        self.data@.len() == FRAME_BYTES
    }

    /// Wrap a packed pixel buffer and its source address as a frame.
    pub fn new(data: Vec<u8>, url: String) -> (f: Frame)
        requires
            data@.len() == FRAME_BYTES,
        ensures
            f.wf(),
            f.data@ == data@,
            f.url@ == url@,
    {
        Frame { data, url }
    }
}

/// A destination buffer a worker reuses for every frame, so that packing
/// never reallocates.
pub fn packed_buffer() -> (buf: Vec<u8>)
    ensures
        buf@.len() == FRAME_BYTES,
        forall|i: int| 0 <= i < buf@.len() ==> buf@[i] == 0u8,
{
    let mut buf: Vec<u8> = Vec::new();
    let mut i: usize = 0;
    while i < FRAME_BYTES
        invariant
            i <= FRAME_BYTES,
            buf@.len() == i,
            forall|j: int| 0 <= j < i ==> buf@[j] == 0u8,
        decreases FRAME_BYTES - i,
    {
        buf.push(0u8);
        i = i + 1;
    }
    buf
}

/// Copy the meaningful bytes of every scanline out of a strided source
/// buffer into the tightly packed destination — exactly one copy per frame.
/// The source row stride may exceed the row width in bytes (scanline
/// padding); only the first `ROW_BYTES` bytes of each source row are kept.
pub fn pack_rows(src: &[u8], stride: usize, dst: &mut Vec<u8>)
    requires
        ROW_BYTES <= stride,
        old(dst)@.len() == FRAME_BYTES,
        src@.len() >= (FRAME_HEIGHT - 1) * stride + ROW_BYTES,
    ensures
        final(dst)@.len() == FRAME_BYTES,
        forall|y: int, x: int|
            0 <= y < FRAME_HEIGHT && 0 <= x < ROW_BYTES ==> #[trigger] final(dst)@[y * ROW_BYTES
                + x] == src@[y * stride + x],
{
    let src_len: usize = src.len();
    let mut y: usize = 0;
    while y < FRAME_HEIGHT
        invariant
            y <= FRAME_HEIGHT,
            ROW_BYTES <= stride,
            dst@.len() == FRAME_BYTES,
            src@.len() == src_len,
            src@.len() >= (FRAME_HEIGHT - 1) * stride + ROW_BYTES,
            forall|r: int, x: int|
                0 <= r < y && 0 <= x < ROW_BYTES ==> #[trigger] dst@[r * ROW_BYTES + x] == src@[
                    r * stride + x],
        decreases FRAME_HEIGHT - y,
    {
        proof {
            assert(y * stride <= (FRAME_HEIGHT - 1) * stride) by (nonlinear_arith)
                requires
                    y <= FRAME_HEIGHT - 1,
                    0 <= stride,
            ;
            assert(y * ROW_BYTES + ROW_BYTES <= FRAME_BYTES) by (nonlinear_arith)
                requires
                    y <= FRAME_HEIGHT - 1,
            ;
        }
        let mut x: usize = 0;
        while x < ROW_BYTES
            invariant
                x <= ROW_BYTES,
                y < FRAME_HEIGHT,
                ROW_BYTES <= stride,
                dst@.len() == FRAME_BYTES,
                src@.len() == src_len,
                src@.len() >= (FRAME_HEIGHT - 1) * stride + ROW_BYTES,
                y * stride <= (FRAME_HEIGHT - 1) * stride,
                y * ROW_BYTES + ROW_BYTES <= FRAME_BYTES,
                forall|r: int, c: int|
                    0 <= r < y && 0 <= c < ROW_BYTES ==> #[trigger] dst@[r * ROW_BYTES + c]
                        == src@[r * stride + c],
                forall|c: int|
                    0 <= c < x ==> #[trigger] dst@[y * ROW_BYTES + c] == src@[y * stride + c],
            decreases ROW_BYTES - x,
        {
            let b = src[y * stride + x];
            dst.set(y * ROW_BYTES + x, b);
            proof {
                assert forall|r: int, c: int|
                    0 <= r < y && 0 <= c < ROW_BYTES implies #[trigger] dst@[r * ROW_BYTES + c]
                    == src@[r * stride + c] by {
                    assert(r * ROW_BYTES + c != y * ROW_BYTES + x) by (nonlinear_arith)
                        requires
                            0 <= r < y,
                            0 <= c < ROW_BYTES,
                            0 <= x,
                    ;
                }
            }
            x = x + 1;
        }
        y = y + 1;
        proof {
            assert(forall|r: int, c: int|
                0 <= r < y && 0 <= c < ROW_BYTES ==> #[trigger] dst@[r * ROW_BYTES + c] == src@[
                    r * stride + c]);
        }
    }
}

} // verus!
