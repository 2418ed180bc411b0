//! The snapshot codec: a frame of the fixed output format, encoded into a
//! lossless image file (binary portable pixmap) and decoded back without
//! changing a single pixel.  Writing the bytes to disk, and browsing them
//! later, is the file-I/O collaborator's job; the bytes themselves are
//! decided here.

use vstd::prelude::*;
use vstd::string::StrSliceExecFns;
use crate::frame::Frame;
use crate::FRAME_BYTES;

verus! {

/// Length of the fixed pixmap header for the fixed output format.
pub const SNAPSHOT_HEADER_LEN: usize = 16;

/// The fixed pixmap header: magic, width, height and the maximum sample
/// value, each as ASCII text, then the packed samples follow raw.
pub open spec fn spec_header() -> Seq<u8> {
    seq![
        80u8,
        54u8,
        10u8,
        49u8,
        50u8,
        56u8,
        48u8,
        32u8,
        55u8,
        50u8,
        48u8,
        10u8,
        50u8,
        53u8,
        53u8,
        10u8,
    ]
}

/// A snapshot is the fixed header followed by the frame's packed pixels.
pub open spec fn spec_encode(pixels: Seq<u8>) -> Seq<u8> {
    spec_header() + pixels
}

/// What reading a snapshot yields: the packed pixels, exactly when the
/// bytes are the fixed header followed by one whole frame.
pub open spec fn spec_decode(bytes: Seq<u8>) -> Option<Seq<u8>> {
    if bytes.len() == SNAPSHOT_HEADER_LEN + FRAME_BYTES && bytes.subrange(
        0,
        SNAPSHOT_HEADER_LEN as int,
    ) == spec_header() {
        Some(bytes.subrange(SNAPSHOT_HEADER_LEN as int, bytes.len() as int))
    } else {
        None
    }
}

/// The fixed header as bytes.
pub fn header_bytes() -> (h: Vec<u8>)
    ensures
        h@ == spec_header(),
{
    let mut h: Vec<u8> = Vec::new();
    h.push(80u8);
    h.push(54u8);
    h.push(10u8);
    h.push(49u8);
    h.push(50u8);
    h.push(56u8);
    h.push(48u8);
    h.push(32u8);
    h.push(55u8);
    h.push(50u8);
    h.push(48u8);
    h.push(10u8);
    h.push(50u8);
    h.push(53u8);
    h.push(53u8);
    h.push(10u8);
    proof {
        assert(h@ =~= spec_header());
    }
    h
}

/// Encode one frame as a snapshot file's bytes.
pub fn encode(frame: &Frame) -> (out: Vec<u8>)
    requires
        frame.wf(),
    ensures
        out@ == spec_encode(frame.data@),
{
    let mut out = header_bytes();
    out.extend_from_slice(frame.data.as_slice());
    proof {
        assert(out@ =~= spec_encode(frame.data@));
    }
    out
}

/// Decode a snapshot file's bytes back into packed pixels.  Anything that
/// is not the fixed header followed by exactly one frame is rejected.
pub fn decode(bytes: &Vec<u8>) -> (r: Option<Vec<u8>>)
    ensures
        match r {
            Some(pixels) => spec_decode(bytes@) == Some(pixels@),
            None => spec_decode(bytes@) is None,
        },
{
    if bytes.len() != SNAPSHOT_HEADER_LEN + FRAME_BYTES {
        return None;
    }
    let header = header_bytes();
    let mut i: usize = 0;
    while i < SNAPSHOT_HEADER_LEN
        invariant
            i <= SNAPSHOT_HEADER_LEN,
            header@ == spec_header(),
            bytes@.len() == SNAPSHOT_HEADER_LEN + FRAME_BYTES,
            forall|j: int| 0 <= j < i ==> bytes@[j] == spec_header()[j],
        decreases SNAPSHOT_HEADER_LEN - i,
    {
        if bytes[i] != header[i] {
            proof {
                assert(bytes@.subrange(0, SNAPSHOT_HEADER_LEN as int)[i as int] != spec_header()[
                    i as int
                ]);
            }
            return None;
        }
        i = i + 1;
    }
    let mut pixels: Vec<u8> = Vec::new();
    let mut k: usize = 0;
    while k < FRAME_BYTES
        invariant
            k <= FRAME_BYTES,
            pixels@.len() == k,
            bytes@.len() == SNAPSHOT_HEADER_LEN + FRAME_BYTES,
            forall|j: int| 0 <= j < k ==> pixels@[j] == bytes@[SNAPSHOT_HEADER_LEN + j],
        decreases FRAME_BYTES - k,
    {
        pixels.push(bytes[SNAPSHOT_HEADER_LEN + k]);
        k = k + 1;
    }
    proof {
        assert(bytes@.subrange(0, SNAPSHOT_HEADER_LEN as int) =~= spec_header());
        assert(pixels@ =~= bytes@.subrange(SNAPSHOT_HEADER_LEN as int, bytes@.len() as int));
    }
    Some(pixels)
}

/// A frame written to a snapshot and read back yields pixel data identical
/// to the in-memory buffer: the target format is lossless.
pub proof fn lemma_snapshot_round_trip(pixels: Seq<u8>)
    requires
        pixels.len() == FRAME_BYTES,
    ensures
        spec_decode(spec_encode(pixels)) == Some(pixels),
{
    assert(spec_encode(pixels).subrange(0, SNAPSHOT_HEADER_LEN as int) =~= spec_header());
    assert(spec_encode(pixels).subrange(
        SNAPSHOT_HEADER_LEN as int,
        spec_encode(pixels).len() as int,
    ) =~= pixels);
}

/// Relies on String::push: appends exactly the one character.
pub assume_specification [ String::push ](s: &mut String, ch: char)
    ensures
        final(s)@ == old(s)@.push(ch),
;

/// A camera's display name as it appears in a snapshot file name: every
/// space turned into an underscore.
pub open spec fn spec_underscored(s: Seq<char>) -> Seq<char> {
    s.map(|i: int, c: char| if c == ' ' { '_' } else { c })
}

/// Where a snapshot belongs: the capture directory, the timestamp, and the
/// camera's name with spaces underscored, under the pixmap extension.
pub fn snapshot_file_name(dir: &str, timestamp: &str, cam_name: &str) -> (path: String)
    ensures
        path@ == dir@ + "/"@ + timestamp@ + "_"@ + spec_underscored(cam_name@) + ".ppm"@,
{
    let mut path = String::new();
    path.append(dir);
    path.append("/");
    path.append(timestamp);
    path.append("_");
    let n = cam_name.unicode_len();
    let mut i: usize = 0;
    while i < n
        invariant
            i <= n,
            n == cam_name@.len(),
            path@ == dir@ + "/"@ + timestamp@ + "_"@ + spec_underscored(cam_name@).subrange(
                0,
                i as int,
            ),
        decreases n - i,
    {
        let c = cam_name.get_char(i);
        if c == ' ' {
            path.push('_');
        } else {
            path.push(c);
        }
        proof {
            assert(path@ =~= dir@ + "/"@ + timestamp@ + "_"@ + spec_underscored(
                cam_name@,
            ).subrange(0, i + 1));
        }
        i = i + 1;
    }
    path.append(".ppm");
    proof {
        assert(spec_underscored(cam_name@).subrange(0, cam_name@.len() as int) =~= spec_underscored(
            cam_name@,
        ));
        assert(path@ =~= dir@ + "/"@ + timestamp@ + "_"@ + spec_underscored(cam_name@) + ".ppm"@);
    }
    path
}

} // verus!
