//! Core of an STFT phase-transplant effect: slicing a sample stream into
//! overlapping fixed-length frames, recombining the magnitude spectrum of one
//! source with the phase spectrum of another, and reassembling the resulting
//! frames into an output stream.
//!
//! Samples and spectrum bins are carried as 32-bit patterns: the framing,
//! pairing and recombination-guard logic never looks inside a sample, so the
//! library stays fully verifiable while the transform itself runs outside.

pub mod frames;
pub mod pipeline;
pub mod rotate;
pub mod spectrum;

use vstd::prelude::*;

verus! {

/// The two operating modes: combining a signal with a rotated copy of
/// itself, or with an independent second signal.
#[derive(Clone, Copy, Debug, PartialEq, Eq, Structural)]
pub enum Mode {
    Shift,
    Transplant,
}

/// A run's configuration: operating mode, frame length, frame stride, and
/// the rotation amount used by the shift mode.
#[derive(Clone, Copy, Debug)]
pub struct Arg {
    pub mode: Mode,
    pub size: usize,
    pub step: usize,
    pub skip: usize,
}

impl Arg {
    /// A configuration is valid when frame length and stride are positive.
    pub open spec fn valid(self) -> bool {
        self.size >= 1 && self.step >= 1
    }

    /// Checks the configuration; processing must not start when this fails.
    pub fn validate(&self) -> (r: bool)
        ensures
            r == self.valid(),
    {
        self.size >= 1 && self.step >= 1
    }
}

} // verus!
