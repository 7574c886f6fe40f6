//! The staging buffer's shape and contents: the byte length owed for a
//! stereo render target, and the payload that repeats the configured fill
//! color over the whole buffer.

use vstd::prelude::*;
use crate::config::{channel, FillColor};

verus! {

/// Bytes needed to source every pixel of a stereo target: width x height
/// pixels, 4 bytes per pixel, 2 array layers.
pub open spec fn staging_len_spec(width: u32, height: u32) -> int {
    width * height * 8
}

/// Compute the staging-buffer length for the given per-eye resolution.
pub fn staging_len(width: u32, height: u32) -> (n: u64)
    requires
        staging_len_spec(width, height) <= u64::MAX,
    ensures
        n == staging_len_spec(width, height),
{
    proof {
        assert((width as int) * (height as int) <= (width as int) * (height as int) * 8)
            by (nonlinear_arith);
    }
    (width as u64) * (height as u64) * 8
}

/// Build the staging payload: the four color channels repeated over `len`
/// bytes, so every pixel of every layer carries the configured fill color.
pub fn fill_pattern(color: FillColor, len: usize) -> (p: Vec<u8>)
    ensures
        p@.len() == len,
        forall|i: int| 0 <= i < len ==> p@[i] == channel(color, i % 4),
{
    let mut p: Vec<u8> = Vec::new();
    let mut i: usize = 0;
    while i < len
        invariant
            i <= len,
            p@.len() == i,
            forall|j: int| 0 <= j < i ==> p@[j] == channel(color, j % 4),
        decreases len - i,
    {
        let m: usize = i % 4;
        let b: u8 = if m == 0 {
            color.red
        } else if m == 1 {
            color.green
        } else if m == 2 {
            color.blue
        } else {
            color.alpha
        };
        p.push(b);
        i = i + 1;
    }
    p
}

} // verus!
