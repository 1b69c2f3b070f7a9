//! Circular rotation of a sample buffer: the shift mode pairs a buffer with a
//! copy of itself rotated left, so the first `k` samples wrap to the end.

use vstd::prelude::*;

verus! {

/// `s` rotated left by `k`: the tail `s[k..]` followed by the head `s[..k]`.
pub open spec fn rotate_spec(s: Seq<u32>, k: int) -> Seq<u32> {
    s.subrange(k, s.len() as int) + s.subrange(0, k)
}

/// Builds the left rotation of `buf` by `k` samples; the length is preserved.
pub fn rotate_left(buf: &Vec<u32>, k: usize) -> (r: Vec<u32>)
    requires
        k <= buf@.len(),
    ensures
        r@ == rotate_spec(buf@, k as int),
        r@.len() == buf@.len(),
{
    let n = buf.len();
    let mut r: Vec<u32> = Vec::new();
    for i in k..n
        invariant
            k <= n,
            n == buf@.len(),
            r@.len() == i - k,
            forall|u: int| 0 <= u < i - k ==> r@[u] == buf@[k + u],
    {
        r.push(buf[i]);
    }
    for i in 0..k
        invariant
            k <= n,
            n == buf@.len(),
            r@.len() == n - k + i,
            forall|u: int| 0 <= u < n - k ==> r@[u] == buf@[k + u],
            forall|u: int| 0 <= u < i ==> r@[n - k + u] == buf@[u],
    {
        r.push(buf[i]);
    }
    proof {
        assert(r@ =~= rotate_spec(buf@, k as int));
    }
    r
}

/// Rotation moves each position by `k` modulo the length: position `i` of
/// the rotated buffer holds the sample at position `(i + k) % len` of the
/// original, so rotation permutes the sample positions.
pub proof fn lemma_rotate_positions(s: Seq<u32>, k: int, i: int)
    requires
        0 <= k <= s.len(),
        0 <= i < s.len(),
    ensures
        rotate_spec(s, k)[i] == s[(i + k) % (s.len() as int)],
{
    let n = s.len() as int;
    if i + k < n {
        vstd::arithmetic::div_mod::lemma_small_mod((i + k) as nat, n as nat);
    } else {
        vstd::arithmetic::div_mod::lemma_fundamental_div_mod_converse(i + k, n, 1, i + k - n);
    }
}

/// Rotation is length-preserving and a bijection on positions: rotating left
/// by `k` and then by `len - k` restores the original buffer.
pub proof fn lemma_rotate_round_trip(s: Seq<u32>, k: int)
    requires
        0 <= k <= s.len(),
    ensures
        rotate_spec(s, k).len() == s.len(),
        rotate_spec(rotate_spec(s, k), s.len() - k) == s,
{
    assert(rotate_spec(rotate_spec(s, k), s.len() - k) =~= s);
}

} // verus!
