//! Exact phases of the tone.
//!
//! Angles are kept as whole numbers of a unit that depends on the sample
//! rate: one unit is a full turn divided by the sample rate. In that unit the
//! phase that a tone of `f` Hz has reached after `n` frames is the integer
//! `f * n`, with nothing rounded.

use vstd::prelude::*;

verus! {

/// Frequency of the tone, in Hz.
pub const FUNDAMENTAL_FREQUENCY: u64 = 440;

/// Phase base of frame `frames`: the angle that the fundamental has reached
/// after that many frames, in units of a turn divided by the sample rate.
pub open spec fn phase_base_at(frames: nat) -> nat {
    FUNDAMENTAL_FREQUENCY as nat * frames
}

/// The angle whose sine one output sample is.
///
/// It stands for `channel * base` units of `1 / sample_rate` of a turn, that
/// is for `2π * channel * base / sample_rate` radians. The two factors are
/// kept apart, so that the product never has to fit a machine word.
#[derive(Clone, Copy, Debug, PartialEq, Eq, Structural)]
pub struct Phase {
    /// Channel index, counted from one; it multiplies the phase base.
    pub channel: usize,
    /// Phase base of the frame, in units of `1 / sample_rate` of a turn.
    pub base: u128,
    /// Frames per second; the number of units in a full turn.
    pub sample_rate: u32,
}

impl Phase {
    /// The angle in units of `1 / sample_rate` of a turn.
    pub open spec fn units(self) -> nat {
        self.channel as nat * self.base as nat
    }
}

} // verus!
