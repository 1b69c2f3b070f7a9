//! Frame extraction: slicing a sample buffer into fixed-length windows taken
//! at a constant stride, with truncating semantics (a window that would run
//! past the end of the buffer is never emitted).

use vstd::prelude::*;

verus! {

/// Number of frames of length `size` taken at stride `step` from a buffer of
/// length `n`: zero when the buffer is shorter than one frame, otherwise
/// `(n - size) / step + 1`.
pub open spec fn frame_count(n: int, size: int, step: int) -> int {
    if n < size {
        0
    } else {
        (n - size) / step + 1
    }
}

/// One frame: the `size` samples of `buf` starting at `start`.
pub open spec fn window_at(buf: Seq<u32>, start: int, size: int) -> Seq<u32> {
    buf.subrange(start, start + size)
}

/// The full frame sequence of `buf` for the given `size` and `step`.
pub open spec fn windows_of(buf: Seq<u32>, size: int, step: int) -> Seq<Seq<u32>> {
    Seq::new(frame_count(buf.len() as int, size, step) as nat, |j: int| window_at(buf, j * step, size))
}

/// How many frames `extract_frames` will yield for a buffer of length `n`.
pub fn num_frames(n: usize, size: usize, step: usize) -> (r: usize)
    requires
        size >= 1,
        step >= 1,
    ensures
        r == frame_count(n as int, size as int, step as int),
{
    if n < size {
        0
    } else {
        (n - size) / step + 1
    }
}

/// Every frame index below the count starts early enough that the whole
/// frame lies inside the buffer.
proof fn lemma_frame_in_bounds(n: int, size: int, step: int, j: int)
    requires
        size >= 1,
        step >= 1,
        n >= size,
        0 <= j < frame_count(n, size, step),
    ensures
        j * step + size <= n,
        j * step >= 0,
{
    assert(j <= (n - size) / step);
    assert(j * step <= ((n - size) / step) * step) by (nonlinear_arith)
        requires
            step >= 1,
            j <= (n - size) / step,
    ;
    assert(((n - size) / step) * step <= n - size) by {
        vstd::arithmetic::div_mod::lemma_fundamental_div_mod(n - size, step);
        vstd::arithmetic::div_mod::lemma_mod_bound(n - size, step);
    }
    assert(j * step >= 0) by (nonlinear_arith)
        requires
            step >= 1,
            j >= 0,
    ;
}

/// Slices `buf` into frames of length `size` at stride `step`, truncating:
/// the result holds exactly `frame_count` frames, and frame `j` is the
/// contiguous run of `size` samples starting at `j * step`.
pub fn extract_frames(buf: &Vec<u32>, size: usize, step: usize) -> (r: Vec<Vec<u32>>)
    requires
        size >= 1,
        step >= 1,
    ensures
        r@.len() == frame_count(buf@.len() as int, size as int, step as int),
        forall|j: int| 0 <= j < r@.len() ==> r@[j]@ == window_at(buf@, j * (step as int), size as int),
        forall|j: int| 0 <= j < r@.len() ==> r@[j]@.len() == size,
{
    let n = buf.len();
    let mut r: Vec<Vec<u32>> = Vec::new();
    if n < size {
        return r;
    }
    let count = (n - size) / step + 1;
    for j in 0..count
        invariant
            size >= 1,
            step >= 1,
            n == buf@.len(),
            n >= size,
            count == frame_count(n as int, size as int, step as int),
            r@.len() == j,
            forall|i: int| 0 <= i < j ==> r@[i]@ == window_at(buf@, i * (step as int), size as int),
            forall|i: int| 0 <= i < j ==> r@[i]@.len() == size,
    {
        proof {
            lemma_frame_in_bounds(n as int, size as int, step as int, j as int);
        }
        let start = j * step;
        let mut frame: Vec<u32> = Vec::new();
        for t in 0..size
            invariant
                n == buf@.len(),
                start == j * step,
                start + size <= n,
                frame@.len() == t,
                forall|u: int| 0 <= u < t ==> frame@[u] == buf@[start + u],
        {
            frame.push(buf[start + t]);
        }
        proof {
            assert(frame@ =~= window_at(buf@, (j * step) as int, size as int));
        }
        r.push(frame);
    }
    r
}

} // verus!
