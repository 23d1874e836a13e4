//! Encoded video frames.

use vstd::prelude::*;

use crate::media_packet::FLAG_KEYFRAME;

verus! {

/// A complete encoded frame.
#[derive(Debug)]
pub struct EncodedFrame {
    pub frame_id: u64,
    pub flags: u16,
    pub timestamp_ms: u64,
    pub bytes: Vec<u8>,
}

impl EncodedFrame {
    /// The frame can be decoded without an earlier one.
    pub open spec fn idr(self) -> bool {
        self.flags & FLAG_KEYFRAME != 0
    }

    /// Whether the frame can be decoded without an earlier one.
    pub fn is_idr(&self) -> (r: bool)
        ensures
            r == self.idr(),
    {
        self.flags & FLAG_KEYFRAME != 0
    }
}

} // verus!
