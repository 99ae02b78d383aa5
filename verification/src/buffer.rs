//! Filling an interleaved output buffer.
//!
//! A buffer holds frames one after another, and within a frame one slot for
//! each channel. Slot `i` of a buffer of `channels` channels therefore belongs
//! to frame `i / channels` of the buffer and to channel `i % channels + 1`. A
//! buffer whose length is no multiple of `channels` ends in a frame that is
//! cut short; it counts as a frame all the same.

use vstd::prelude::*;

use vstd::arithmetic::div_mod::{lemma_fundamental_div_mod, lemma_fundamental_div_mod_converse};

use crate::generator::{GeneratorState, ToneGenerator};
use crate::phase::Phase;

verus! {

/// Number of frames that a buffer of `len` slots holds: the full ones, and
/// one more if slots are left over.
pub open spec fn frame_count(len: nat, channels: nat) -> nat {
    if len % channels == 0 {
        len / channels
    } else {
        len / channels + 1
    }
}

/// The phase that belongs in slot `i` of a buffer that a generator in state
/// `start` is asked to fill: the slot's channel, in the frame that the
/// generator has reached when it comes to the slot.
pub open spec fn slot_phase(start: GeneratorState, channels: usize, i: int) -> Phase {
    start.advanced((i / channels as int + 1) as nat).phase((i % channels as int + 1) as usize)
}

/// A slot of the frame that starts at slot `start`: which frame of the buffer
/// it belongs to, and which place it has there.
proof fn lemma_slot_in_frame(start: int, channels: int, frames: int, ch: int)
    requires
        start == frames * channels,
        0 <= ch < channels,
    ensures
        (start + ch) / channels == frames,
        (start + ch) % channels == ch,
{
    lemma_fundamental_div_mod_converse(start + ch, channels, frames, ch);
}

/// How the frame count grows by the frame that starts at slot `start`.
/// `width` is the number of slots that the frame has in a buffer of `len`
/// slots.
proof fn lemma_frame_at(start: nat, len: nat, channels: nat, frames: nat, width: nat)
    requires
        channels > 0,
        start == frames * channels,
        start < len,
        width == if len - start < channels { len - start } else { channels as int },
    ensures
        frame_count(start, channels) == frames,
        frame_count(start + width, channels) == frames + 1,
        frames + 1 <= frame_count(len, channels),
        start + width == len || start + width == (frames + 1) * channels,
{
    let c = channels as int;
    let k = frames as int;
    lemma_fundamental_div_mod_converse(start as int, c, k, 0);
    assert((k + 1) * c == k * c + c) by (nonlinear_arith);
    if width == channels {
        lemma_fundamental_div_mod_converse((start + width) as int, c, k + 1, 0);
    } else {
        lemma_fundamental_div_mod_converse((start + width) as int, c, k, width as int);
    }
    // the whole buffer holds at least the frames up to the end of this one
    let end = (start + width) as int;
    lemma_fundamental_div_mod(len as int, c);
    if end < len {
        let q = len as int / c;
        assert(q >= k + 1) by (nonlinear_arith)
            requires
                len == c * q + len as int % c,
                0 <= len as int % c < c,
                len > (k + 1) * c,
                c > 0,
        ;
    }
}

/// Number of frames in a buffer of `len` slots at `channels` slots a frame.
pub fn count_frames(len: usize, channels: usize) -> (frames: usize)
    requires
        channels > 0,
    ensures
        frames == frame_count(len as nat, channels as nat),
{
    if len % channels == 0 {
        len / channels
    } else {
        proof {
            lemma_fundamental_div_mod(len as int, channels as int);
            assert(len as int / channels as int <= len - 1) by (nonlinear_arith)
                requires
                    len == channels as int * (len as int / channels as int) + len as int
                        % channels as int,
                    len as int % channels as int > 0,
                    channels > 0,
            ;
        }
        len / channels + 1
    }
}

/// Fills `output` with the next samples of the tone, interleaved by channel.
///
/// The buffer is taken frame by frame, `channels` slots at a time, and each
/// frame channel by channel from channel one, which begins the frame. What is
/// written to a slot is what `render` makes of the slot's phase, so the sample
/// type and the sine are the caller's. The generator ends as many frames
/// later as the buffer holds.
pub fn write_data<T, F>(output: &mut [T], channels: usize, generator: &mut ToneGenerator, render: F)
    where F: Fn(Phase) -> T
    requires
        channels > 0,
        old(generator)@.frames + frame_count(old(output)@.len(), channels as nat) <= u64::MAX,
        forall|i: int|
            0 <= i < old(output)@.len() ==> call_requires(
                render,
                (#[trigger] slot_phase(old(generator)@, channels, i),),
            ),
    ensures
        final(output)@.len() == old(output)@.len(),
        forall|i: int|
            0 <= i < old(output)@.len() ==> call_ensures(
                render,
                (slot_phase(old(generator)@, channels, i),),
                #[trigger] final(output)@[i],
            ),
        final(generator)@ == old(generator)@.advanced(
            frame_count(old(output)@.len(), channels as nat),
        ),
{
    let ghost first = generator@;
    let len: usize = output.len();
    let ghost mut frames: nat = 0;
    let mut start: usize = 0;
    while start < len
        invariant
            channels > 0,
            output@.len() == len,
            start <= len,
            start == len || start == frames * channels,
            frames == frame_count(start as nat, channels as nat),
            frames <= frame_count(len as nat, channels as nat),
            first.frames + frame_count(len as nat, channels as nat) <= u64::MAX,
            generator@ == first.advanced(frames),
            forall|i: int|
                0 <= i < len ==> call_requires(render, (#[trigger] slot_phase(first, channels, i),)),
            forall|i: int|
                0 <= i < start ==> call_ensures(
                    render,
                    (slot_phase(first, channels, i),),
                    #[trigger] output@[i],
                ),
        decreases len - start,
    {
        let width: usize = if len - start < channels {
            len - start
        } else {
            channels
        };
        proof {
            lemma_frame_at(start as nat, len as nat, channels as nat, frames, width as nat);
        }
        let mut ch: usize = 0;
        while ch < width
            invariant
                channels > 0,
                output@.len() == len,
                start < len,
                0 < width <= channels,
                start + width <= len,
                ch <= width,
                first.frames + frames + 1 <= u64::MAX,
                generator@ == first.advanced(
                    if ch == 0 {
                        frames
                    } else {
                        frames + 1
                    },
                ),
                start == frames * channels,
                forall|i: int|
                    0 <= i < len ==> call_requires(
                        render,
                        (#[trigger] slot_phase(first, channels, i),),
                    ),
                forall|i: int|
                    0 <= i < start + ch ==> call_ensures(
                        render,
                        (slot_phase(first, channels, i),),
                        #[trigger] output@[i],
                    ),
            decreases width - ch,
        {
            let slot: usize = start + ch;
            let phase = generator.next_value(ch + 1);
            assert(phase == slot_phase(first, channels, slot as int)) by {
                lemma_slot_in_frame(start as int, channels as int, frames as int, ch as int);
            }
            let value = render(phase);
            output[slot] = value;
            ch += 1;
        }
        start += width;
        proof {
            frames = frames + 1;
        }
    }
}

} // verus!
