use vstd::prelude::*;

verus! {

use crate::frame::{frame_bytes, frame_len, valid_dims};

/// One frame request, in the owned form the verified core works on.
///
/// The timestamp travels as the raw bits of the caller's 64-bit seconds
/// value: the core never computes with it, it only hands it through to the
/// document engine for time-driven re-resolution.  Timestamps need not be
/// monotonic — repeats and regressions are legal (looped inputs) and are
/// passed on as given.  The inputs are the 0..S supplied frames (an empty
/// vector stands for an absent input), and `output_len` is the length the
/// caller's output buffer must have.
pub struct RenderJob {
    pub time_bits: u64,
    pub inputs: Vec<Vec<u8>>,
    pub output_len: usize,
}

impl RenderJob {
    /// Buffer-length invariant of a job against a viewport: every supplied
    /// input is exactly one frame, and the output is exactly one frame.
    pub open spec fn wf(&self, width: u32, height: u32) -> bool {
        &&& self.output_len == frame_bytes(width, height)
        &&& forall|i: int|
            0 <= i < self.inputs@.len() ==> (#[trigger] self.inputs@[i])@.len() == 0
                || self.inputs@[i]@.len() == frame_bytes(width, height)
    }

    /// Runtime check for `wf`, for the boundary where jobs arrive from an
    /// unverified caller.
    pub fn valid_lengths(&self, width: u32, height: u32) -> (ok: bool)
        requires
            valid_dims(width, height),
        ensures
            ok == self.wf(width, height),
    {
        let flen = frame_len(width, height);
        if self.output_len != flen {
            return false;
        }
        let mut i: usize = 0;
        while i < self.inputs.len()
            invariant
                i <= self.inputs@.len(),
                flen == frame_bytes(width, height),
                self.output_len == flen,
                forall|k: int|
                    0 <= k < i ==> (#[trigger] self.inputs@[k])@.len() == 0
                        || self.inputs@[k]@.len() == flen,
            decreases self.inputs@.len() - i,
        {
            let l = self.inputs[i].len();
            if l != 0 && l != flen {
                return false;
            }
            i = i + 1;
        }
        true
    }
}

} // verus!
