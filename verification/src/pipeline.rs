//! The frame synthesizer's driving state: pairs the frame sequences of the
//! amplitude source and the phase source, hands the pairs out in frame order,
//! and states how the output stream is assembled from the per-pair output
//! frames.
//!
//! In transplant mode the two sources are independent buffers and pairing
//! truncates to the shorter frame sequence; in shift mode the phase source is
//! the amplitude source rotated left, so the two sequences have equal length
//! by construction.

use vstd::prelude::*;
use crate::Arg;
use crate::frames::extract_frames;
use crate::frames::frame_count;
use crate::frames::windows_of;
use crate::rotate::rotate_left;
use crate::rotate::rotate_spec;

verus! {

/// An exact copy of a frame's samples.
fn copy_frame(buf: &Vec<u32>) -> (r: Vec<u32>)
    ensures
        r@ == buf@,
{
    let mut r: Vec<u32> = Vec::new();
    let n = buf.len();
    for i in 0..n
        invariant
            n == buf@.len(),
            r@.len() == i,
            forall|u: int| 0 <= u < i ==> r@[u] == buf@[u],
    {
        r.push(buf[i]);
    }
    proof {
        assert(r@ =~= buf@);
    }
    r
}

/// One run's paired frame sequences and the cursor over them.
pub struct Pipeline {
    size: usize,
    first: Vec<Vec<u32>>,
    second: Vec<Vec<u32>>,
    pairs: usize,
    next: usize,
}

impl Pipeline {
    /// The amplitude source's frames.
    pub closed spec fn first_frames(self) -> Seq<Seq<u32>> {
        self.first@.map_values(|f: Vec<u32>| f@)
    }

    /// The phase source's frames.
    pub closed spec fn second_frames(self) -> Seq<Seq<u32>> {
        self.second@.map_values(|f: Vec<u32>| f@)
    }

    /// How many frame pairs the run processes in all.
    pub closed spec fn pair_count(self) -> int {
        self.pairs as int
    }

    /// How many frame pairs have been handed out so far.
    pub closed spec fn emitted(self) -> int {
        self.next as int
    }

    /// The configured frame length.
    pub closed spec fn frame_len(self) -> int {
        self.size as int
    }

    /// Pairing truncates to the shorter frame sequence, every frame has the
    /// configured length, and the cursor never passes the pair count.
    pub closed spec fn wf(self) -> bool {
        &&& self.pairs <= self.first@.len()
        &&& self.pairs <= self.second@.len()
        &&& (self.pairs == self.first@.len() || self.pairs == self.second@.len())
        &&& self.next <= self.pairs
        &&& forall|j: int| 0 <= j < self.first@.len() ==> self.first@[j]@.len() == self.size
        &&& forall|j: int| 0 <= j < self.second@.len() ==> self.second@[j]@.len() == self.size
    }

    /// Sets up a transplant run: the amplitude source and the phase source
    /// are independent buffers, framed with the same length and stride, and
    /// paired up to the shorter frame sequence.
    pub fn transplant(args: &Arg, first: &Vec<u32>, second: &Vec<u32>) -> (r: Pipeline)
        requires
            args.valid(),
            args.mode is Transplant,
        ensures
            r.wf(),
            r.frame_len() == args.size,
            r.emitted() == 0,
            r.first_frames() == windows_of(first@, args.size as int, args.step as int),
            r.second_frames() == windows_of(second@, args.size as int, args.step as int),
            r.pair_count() == vstd::math::min(
                frame_count(first@.len() as int, args.size as int, args.step as int),
                frame_count(second@.len() as int, args.size as int, args.step as int),
            ),
    {
        let f = extract_frames(first, args.size, args.step);
        let s = extract_frames(second, args.size, args.step);
        let pairs = if f.len() <= s.len() {
            f.len()
        } else {
            s.len()
        };
        let r = Pipeline { size: args.size, first: f, second: s, pairs, next: 0 };
        proof {
            assert(r.first_frames() =~= windows_of(first@, args.size as int, args.step as int));
            assert(r.second_frames() =~= windows_of(second@, args.size as int, args.step as int));
        }
        r
    }

    /// Sets up a shift run: the phase source is the input rotated left by
    /// `args.skip`, so both frame sequences have the same length and every
    /// frame of the input is paired.
    pub fn shift(args: &Arg, input: &Vec<u32>) -> (r: Pipeline)
        requires
            args.valid(),
            args.mode is Shift,
            args.skip <= input@.len(),
        ensures
            r.wf(),
            r.frame_len() == args.size,
            r.emitted() == 0,
            r.first_frames() == windows_of(input@, args.size as int, args.step as int),
            r.second_frames() == windows_of(
                rotate_spec(input@, args.skip as int),
                args.size as int,
                args.step as int,
            ),
            r.pair_count() == frame_count(input@.len() as int, args.size as int, args.step as int),
    {
        let rotated = rotate_left(input, args.skip);
        let f = extract_frames(input, args.size, args.step);
        let s = extract_frames(&rotated, args.size, args.step);
        let pairs = f.len();
        let r = Pipeline { size: args.size, first: f, second: s, pairs, next: 0 };
        proof {
            assert(r.first_frames() =~= windows_of(input@, args.size as int, args.step as int));
            assert(r.second_frames() =~= windows_of(
                rotate_spec(input@, args.skip as int),
                args.size as int,
                args.step as int,
            ));
        }
        r
    }

    /// Hands out the next frame pair in frame order — amplitude-source frame
    /// first, phase-source frame second — or nothing once every pair has been
    /// processed. The frame sequences themselves never change.
    pub fn next_pair(&mut self) -> (r: Option<(Vec<u32>, Vec<u32>)>)
        requires
            old(self).wf(),
        ensures
            final(self).wf(),
            final(self).frame_len() == old(self).frame_len(),
            final(self).first_frames() == old(self).first_frames(),
            final(self).second_frames() == old(self).second_frames(),
            final(self).pair_count() == old(self).pair_count(),
            old(self).emitted() < old(self).pair_count() ==> (r matches Some(p)
                && p.0@ == old(self).first_frames()[old(self).emitted()]
                && p.1@ == old(self).second_frames()[old(self).emitted()]
                && final(self).emitted() == old(self).emitted() + 1),
            old(self).emitted() >= old(self).pair_count() ==> (r is None && final(self).emitted()
                == old(self).emitted()),
    {
        if self.next < self.pairs {
            let a = copy_frame(&self.first[self.next]);
            let b = copy_frame(&self.second[self.next]);
            self.next = self.next + 1;
            Some((a, b))
        } else {
            None
        }
    }
}

/// Appends one output frame's samples, in order, to the output stream:
/// successive output frames are concatenated positionally, never blended.
pub fn append_output_frame(out: &mut Vec<u32>, frame: &Vec<u32>)
    ensures
        final(out)@ == old(out)@ + frame@,
{
    let n = frame.len();
    for i in 0..n
        invariant
            n == frame@.len(),
            out@.len() == old(out)@.len() + i,
            out@ == old(out)@ + frame@.subrange(0, i as int),
    {
        out.push(frame[i]);
        proof {
            assert(out@ =~= old(out)@ + frame@.subrange(0, i + 1));
        }
    }
    proof {
        assert(frame@.subrange(0, frame@.len() as int) =~= frame@);
    }
}

} // verus!
