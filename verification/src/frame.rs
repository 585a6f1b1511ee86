use vstd::prelude::*;

verus! {

/// Number of bytes in one RGBA8888 frame of the given dimensions:
/// four bytes per pixel, row-major.
pub open spec fn frame_bytes(width: u32, height: u32) -> int {
    width * height * 4
}

/// Dimensions the core accepts: both sides positive, and one whole frame
/// fits in a `usize`-indexed buffer.
pub open spec fn valid_dims(width: u32, height: u32) -> bool {
    0 < width && 0 < height && frame_bytes(width, height) <= usize::MAX
}

/// Runtime check for `valid_dims`, for callers that receive dimensions from
/// an outside host and must reject the unusable ones before construction.
pub fn check_dims(width: u32, height: u32) -> (ok: bool)
    ensures
        ok == valid_dims(width, height),
{
    proof {
        assert((width as int) * (height as int) * 4 <= (u32::MAX as int) * (u32::MAX as int) * 4)
            by (nonlinear_arith)
            requires
                width <= u32::MAX,
                height <= u32::MAX,
        ;
    }
    let bytes: u128 = (width as u128) * (height as u128) * 4;
    0 < width && 0 < height && bytes <= usize::MAX as u128
}

/// Byte length of one frame, as a buffer length.
pub fn frame_len(width: u32, height: u32) -> (n: usize)
    requires
        valid_dims(width, height),
    ensures
        n == frame_bytes(width, height),
{
    proof {
        assert(0 <= width * height <= width * height * 4) by (nonlinear_arith);
    }
    (width as usize) * (height as usize) * 4
}

/// A zero-filled pixel buffer of the given length.
pub fn zero_frame(n: usize) -> (v: Vec<u8>)
    ensures
        v@.len() == n,
        forall|i: int| 0 <= i < n ==> v@[i] == 0,
{
    let mut v: Vec<u8> = Vec::new();
    let mut j: usize = 0;
    while j < n
        invariant
            j <= n,
            v@.len() == j,
            forall|i: int| 0 <= i < j ==> v@[i] == 0,
        decreases n - j,
    {
        v.push(0);
        j = j + 1;
    }
    v
}

/// Copy `src` into `dst` verbatim.  The in-place equivalent of overwriting a
/// frame buffer with a newly arrived input frame.
pub fn copy_frame(dst: &mut Vec<u8>, src: &Vec<u8>)
    requires
        old(dst)@.len() == src@.len(),
    ensures
        final(dst)@ == src@,
{
    let mut j: usize = 0;
    while j < src.len()
        invariant
            j <= src@.len(),
            dst@.len() == src@.len(),
            forall|k: int| 0 <= k < j ==> dst@[k] == src@[k],
        decreases src@.len() - j,
    {
        let b = src[j];
        dst.set(j, b);
        j = j + 1;
    }
    assert(dst@ =~= src@);
}

} // verus!
