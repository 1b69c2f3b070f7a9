//! Spectral recombination: the guard that decides, bin by bin, whether the
//! combined spectrum carries the rescaled phase-source value or an exact zero.
//!
//! A bin's components travel as IEEE-754 bit patterns, so the guard can state
//! exactly when a bin is zero. The rescaling itself (phase value scaled to the
//! amplitude source's magnitude over the transform size) is floating-point
//! arithmetic and runs outside the library; it is handed in per bin together
//! with the phase source's squared magnitude, and the guard selects the
//! rescaled value only where that magnitude is not zero.

use vstd::prelude::*;

verus! {

/// One frequency bin of a spectrum, both components as 32-bit IEEE-754 bit
/// patterns.
#[derive(Clone, Copy, PartialEq, Eq, Structural, Debug)]
pub struct Bin {
    pub re: u32,
    pub im: u32,
}

/// The bit patterns of floating-point zero, either sign.
pub open spec fn is_zero_bits(b: u32) -> bool {
    b == 0u32 || b == 0x8000_0000u32
}

/// The exactly-zero bin.
pub open spec fn zero_bin() -> Bin {
    Bin { re: 0u32, im: 0u32 }
}

/// The combined spectrum: bin `i` is exactly zero where the phase source's
/// squared magnitude `energy[i]` is zero, and the externally rescaled value
/// `scaled[i]` everywhere else.
pub open spec fn combined_spec(scaled: Seq<Bin>, energy: Seq<u32>) -> Seq<Bin> {
    Seq::new(scaled.len(), |i: int| if is_zero_bits(energy[i]) {
        zero_bin()
    } else {
        scaled[i]
    })
}

/// Tests whether `b` is the bit pattern of floating-point zero (either sign).
pub fn bits_are_zero(b: u32) -> (r: bool)
    ensures
        r == is_zero_bits(b),
{
    b == 0 || b == 0x8000_0000
}

/// Builds the combined spectrum from the per-bin rescaled values and the
/// phase source's per-bin squared magnitudes: a zero-magnitude phase bin
/// yields an exactly zero bin, never the rescaled value.
pub fn combine_spectra(scaled: &Vec<Bin>, energy: &Vec<u32>) -> (r: Vec<Bin>)
    requires
        scaled@.len() == energy@.len(),
    ensures
        r@ == combined_spec(scaled@, energy@),
        r@.len() == scaled@.len(),
{
    let n = scaled.len();
    let mut r: Vec<Bin> = Vec::new();
    for i in 0..n
        invariant
            n == scaled@.len(),
            n == energy@.len(),
            r@.len() == i,
            forall|u: int| 0 <= u < i ==> r@[u] == combined_spec(scaled@, energy@)[u],
    {
        if bits_are_zero(energy[i]) {
            r.push(Bin { re: 0, im: 0 });
        } else {
            r.push(scaled[i]);
        }
    }
    proof {
        assert(r@ =~= combined_spec(scaled@, energy@));
    }
    r
}

/// Zero-phase-bin safety: at a bin where the phase source's magnitude is
/// zero, the combined spectrum holds an exact zero, whatever value was
/// rescaled for that bin — two runs that differ arbitrarily in the rescaled
/// values agree there.
pub proof fn lemma_zero_phase_bin_safety(
    scaled1: Seq<Bin>,
    scaled2: Seq<Bin>,
    energy: Seq<u32>,
    i: int,
)
    requires
        scaled1.len() == energy.len(),
        scaled2.len() == energy.len(),
        0 <= i < energy.len(),
        is_zero_bits(energy[i]),
    ensures
        combined_spec(scaled1, energy)[i] == zero_bin(),
        combined_spec(scaled1, energy)[i] == combined_spec(scaled2, energy)[i],
{
}

} // verus!
