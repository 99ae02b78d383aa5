//! The generator: a frame counter and the phase base that goes with it.

use vstd::prelude::*;

use crate::phase::{phase_base_at, Phase, FUNDAMENTAL_FREQUENCY};

verus! {

/// What a generator is, mathematically: its sample rate and the number of
/// frames it has begun. Everything else follows from these two.
pub struct GeneratorState {
    /// Frames per second of the stream.
    pub sample_rate: u32,
    /// Frames begun since the generator was made.
    pub frames: nat,
}

impl GeneratorState {
    /// The frame count is one that a generator can hold. This is true of the
    /// state of every [`ToneGenerator`].
    pub open spec fn in_range(self) -> bool {
        self.frames <= u64::MAX
    }

    /// A generator that has not begun any frame.
    pub open spec fn initial(sample_rate: u32) -> Self {
        GeneratorState { sample_rate, frames: 0 }
    }

    /// The state `count` frames later.
    pub open spec fn advanced(self, count: nat) -> Self {
        GeneratorState { sample_rate: self.sample_rate, frames: self.frames + count }
    }

    /// Phase base of the current frame.
    pub open spec fn phase_base(self) -> nat {
        phase_base_at(self.frames)
    }

    /// The phase that `channel` sounds in the current frame: `channel` times
    /// the phase base.
    pub open spec fn phase(self, channel: usize) -> Phase {
        Phase { channel, base: self.phase_base() as u128, sample_rate: self.sample_rate }
    }

    /// The state after a sample was asked for `channel`: channel one opens a
    /// new frame, every other channel stays in the current one.
    pub open spec fn after_request(self, channel: usize) -> Self {
        if channel == 1 {
            self.advanced(1)
        } else {
            self
        }
    }
}

/// Generator of a sine tone of [`FUNDAMENTAL_FREQUENCY`] Hz.
///
/// It owns the two values that change while a stream runs: the frame counter
/// and the phase base. The phase base is recomputed when a frame begins and at
/// no other time, so all channels of one frame share it.
#[derive(Debug)]
pub struct ToneGenerator {
    sample_rate: u32,
    frame_counter: u64,
    phase_base: u128,
}

impl View for ToneGenerator {
    type V = GeneratorState;

    closed spec fn view(&self) -> GeneratorState {
        GeneratorState { sample_rate: self.sample_rate, frames: self.frame_counter as nat }
    }
}

impl ToneGenerator {
    /// The phase base is the one of the frame that the counter names.
    #[verifier::type_invariant]
    spec fn phase_base_is_current(self) -> bool {
        self.phase_base == phase_base_at(self.frame_counter as nat)
    }

    /// The state of a generator is always in range.
    pub proof fn lemma_in_range(&self)
        ensures
            self@.in_range(),
    {
    }

    /// A generator for a stream of `sample_rate` frames per second, before
    /// its first frame.
    pub fn new(sample_rate: u32) -> (generator: Self)
        ensures
            generator@ == GeneratorState::initial(sample_rate),
    {
        ToneGenerator { sample_rate, frame_counter: 0, phase_base: 0 }
    }

    /// Frames per second of the stream.
    pub fn sample_rate(&self) -> (rate: u32)
        ensures
            rate == self@.sample_rate,
    {
        self.sample_rate
    }

    /// Number of frames begun so far.
    pub fn frame_counter(&self) -> (frames: u64)
        ensures
            frames == self@.frames,
    {
        self.frame_counter
    }

    /// Phase base of the current frame, in units of `1 / sample_rate` of a
    /// turn.
    pub fn phase_base(&self) -> (base: u128)
        ensures
            base == self@.phase_base(),
    {
        proof {
            use_type_invariant(self);
        }
        self.phase_base
    }

    /// Begins the next frame: counts it and recomputes the phase base.
    pub fn advance_frame(&mut self)
        requires
            old(self)@.frames < u64::MAX,
        ensures
            final(self)@ == old(self)@.advanced(1),
    {
        let frame_counter: u64 = self.frame_counter + 1;
        let cycles: u128 = FUNDAMENTAL_FREQUENCY as u128;
        let phase_base: u128 = cycles * (frame_counter as u128);
        *self = ToneGenerator { sample_rate: self.sample_rate, frame_counter, phase_base };
    }

    /// The phase that `channel` sounds in the current frame. Nothing changes:
    /// the channels of a frame may be asked for in any order, and more than
    /// once.
    pub fn sample(&self, channel: usize) -> (phase: Phase)
        ensures
            phase == self@.phase(channel),
    {
        proof {
            use_type_invariant(self);
        }
        Phase { channel, base: self.phase_base, sample_rate: self.sample_rate }
    }

    /// The phase of the next sample of a stream that asks for its channels in
    /// order, counted from one: a request for channel one begins a new frame,
    /// a request for any other channel stays in the frame that is open.
    pub fn next_value(&mut self, channel: usize) -> (phase: Phase)
        requires
            channel == 1 ==> old(self)@.frames < u64::MAX,
        ensures
            final(self)@ == old(self)@.after_request(channel),
            phase == final(self)@.phase(channel),
    {
        if channel == 1 {
            self.advance_frame();
        }
        self.sample(channel)
    }
}

} // verus!
