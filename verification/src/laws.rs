//! What holds of the generator and of the buffers it fills, whatever the
//! sample rate, the number of channels and the length of the stream.

use vstd::prelude::*;

use vstd::arithmetic::div_mod::lemma_fundamental_div_mod_converse;

use crate::buffer::{frame_count, slot_phase};
use crate::generator::GeneratorState;
use crate::phase::{phase_base_at, Phase, FUNDAMENTAL_FREQUENCY};

verus! {

/// The phase base goes with the frame counter: after `n` frames it is
/// `FUNDAMENTAL_FREQUENCY * n` units, it grows by `FUNDAMENTAL_FREQUENCY` when
/// a request for channel one begins the next frame, and a request for any
/// other channel leaves it as it is. The frame counter never goes back.
pub proof fn lemma_phase_base_follows_frames(state: GeneratorState, channel: usize)
    ensures
        state.phase_base() == FUNDAMENTAL_FREQUENCY * state.frames,
        state.after_request(channel).frames >= state.frames,
        state.after_request(1).frames == state.frames + 1,
        state.after_request(1).phase_base() == state.phase_base() + FUNDAMENTAL_FREQUENCY,
        channel != 1 ==> state.after_request(channel) == state,
        channel != 1 ==> state.after_request(channel).phase_base() == state.phase_base(),
{
}

/// In frame `n` channel `c` sounds the angle `c * FUNDAMENTAL_FREQUENCY * n`,
/// in units of `1 / sample_rate` of a turn.
pub proof fn lemma_phase_of_channel(state: GeneratorState, channel: usize)
    requires
        state.in_range(),
    ensures
        state.phase(channel).channel == channel,
        state.phase(channel).base == state.phase_base(),
        state.phase(channel).sample_rate == state.sample_rate,
        state.phase(channel).units() == channel * FUNDAMENTAL_FREQUENCY * state.frames,
{
    let c = channel as nat;
    let f = FUNDAMENTAL_FREQUENCY as nat;
    let n = state.frames;
    assert(c * (f * n) == c * f * n) by (nonlinear_arith);
}

/// Once a frame is open, the order in which its other channels are asked for
/// does not matter: a request for one of them changes neither the state nor
/// the phase that a later request for another is answered with.
pub proof fn lemma_channel_order_is_immaterial(state: GeneratorState, a: usize, b: usize)
    requires
        a != 1,
        b != 1,
    ensures
        state.after_request(a).after_request(b) == state.after_request(b).after_request(a),
        state.after_request(a).phase(b) == state.phase(b),
        state.after_request(b).phase(a) == state.phase(a),
{
}

/// Before the first frame every channel is at angle zero, and channel
/// number zero is at angle zero in every frame.
pub proof fn lemma_initial_phase_is_zero(sample_rate: u32, state: GeneratorState, channel: usize)
    ensures
        GeneratorState::initial(sample_rate).phase(channel).base == 0,
        GeneratorState::initial(sample_rate).phase(channel).units() == 0,
        state.phase(0).units() == 0,
{
    let base = GeneratorState::initial(sample_rate).phase(channel).base as nat;
    assert(channel as nat * base == 0) by (nonlinear_arith)
        requires
            base == 0,
    ;
    let other = state.phase(0).base as nat;
    assert(0nat * other == 0) by (nonlinear_arith);
}

/// All slots of one frame of a buffer are filled from the same phase base,
/// that of the frame, and slots of different frames from different ones. The
/// `k`-th frame of the buffer, counted from zero, is frame `start.frames + k
/// + 1` of the stream.
pub proof fn lemma_frame_shares_phase_base(start: GeneratorState, channels: usize, i: int, j: int)
    requires
        channels > 0,
        0 <= i,
        0 <= j,
        start.advanced((i / channels as int + 1) as nat).in_range(),
        start.advanced((j / channels as int + 1) as nat).in_range(),
    ensures
        slot_phase(start, channels, i).base == phase_base_at(
            (start.frames + i / channels as int + 1) as nat,
        ),
        slot_phase(start, channels, i).channel == i % channels as int + 1,
        slot_phase(start, channels, i).sample_rate == start.sample_rate,
        i / channels as int == j / channels as int <==> slot_phase(start, channels, i).base
            == slot_phase(start, channels, j).base,
{
    let c = channels as int;
    assert(0 <= i / c && 0 <= j / c && 0 <= i % c < c) by (nonlinear_arith)
        requires
            c > 0,
            0 <= i,
            0 <= j,
    ;
}

/// Two runs give the same samples. Two generators in the same state that
/// fill buffers of the same length and number of channels are asked for the
/// same phase in every slot and end in the same state; and if `render` makes
/// only one sample of each phase, the two buffers are equal slot by slot.
pub proof fn lemma_fill_is_deterministic<T, F: Fn(Phase) -> T>(
    render: F,
    one: GeneratorState,
    other: GeneratorState,
    channels: usize,
    filled_one: Seq<T>,
    filled_other: Seq<T>,
)
    requires
        one == other,
        filled_one.len() == filled_other.len(),
        forall|phase: Phase, a: T, b: T|
            call_ensures(render, (phase,), a) && call_ensures(render, (phase,), b) ==> a == b,
        forall|i: int|
            0 <= i < filled_one.len() ==> call_ensures(
                render,
                (slot_phase(one, channels, i),),
                #[trigger] filled_one[i],
            ),
        forall|i: int|
            0 <= i < filled_other.len() ==> call_ensures(
                render,
                (slot_phase(other, channels, i),),
                #[trigger] filled_other[i],
            ),
    ensures
        forall|i: int| #[trigger] slot_phase(one, channels, i) == slot_phase(other, channels, i),
        one.advanced(frame_count(filled_one.len(), channels as nat)) == other.advanced(
            frame_count(filled_other.len(), channels as nat),
        ),
        filled_one == filled_other,
{
    assert forall|i: int| 0 <= i < filled_one.len() implies filled_one[i] == filled_other[i] by {
        let phase = slot_phase(one, channels, i);
        assert(call_ensures(render, (phase,), filled_one[i]));
        assert(call_ensures(render, (phase,), filled_other[i]));
    }
    assert(filled_one =~= filled_other);
}

/// A filled buffer holds nothing but what `render` returned: whatever is
/// true of every sample that `render` can make, a range for one, is true of
/// every slot.
pub proof fn lemma_slots_keep_what_render_ensures<T, F: Fn(Phase) -> T>(
    render: F,
    start: GeneratorState,
    channels: usize,
    filled: Seq<T>,
    holds: spec_fn(T) -> bool,
)
    requires
        forall|phase: Phase, sample: T|
            #[trigger] call_ensures(render, (phase,), sample) ==> holds(sample),
        forall|i: int|
            0 <= i < filled.len() ==> call_ensures(
                render,
                (slot_phase(start, channels, i),),
                #[trigger] filled[i],
            ),
    ensures
        forall|i: int| 0 <= i < filled.len() ==> holds(#[trigger] filled[i]),
{
    assert forall|i: int| 0 <= i < filled.len() implies holds(#[trigger] filled[i]) by {
        assert(call_ensures(render, (slot_phase(start, channels, i),), filled[i]));
    }
}

/// A stream does not depend on how it is cut into buffers of whole frames:
/// slot `i` of a buffer that begins `frames` frames after `start` is given the
/// phase of slot `frames * channels + i` of one that begins at `start`, and a
/// buffer of whole frames leaves the generator where the frames end.
pub proof fn lemma_stream_is_independent_of_cut(
    start: GeneratorState,
    channels: usize,
    frames: nat,
    i: int,
)
    requires
        channels > 0,
        0 <= i,
    ensures
        slot_phase(start.advanced(frames), channels, i) == slot_phase(
            start,
            channels,
            frames * channels + i,
        ),
        frame_count((frames * channels) as nat, channels as nat) == frames,
{
    let c = channels as int;
    let k = frames as int;
    assert(0 <= i / c && 0 <= i % c < c && i == (i / c) * c + i % c) by (nonlinear_arith)
        requires
            c > 0,
            0 <= i,
    ;
    assert(k * c + i == (k + i / c) * c + i % c) by (nonlinear_arith)
        requires
            i == (i / c) * c + i % c,
    ;
    lemma_fundamental_div_mod_converse(k * c + i, c, k + i / c, i % c);
    lemma_fundamental_div_mod_converse(k * c, c, k, 0);
}

} // verus!
