use tone_gen::{Phase, ToneGenerator, FUNDAMENTAL_FREQUENCY};

#[test]
fn fundamental_is_concert_pitch() {
    assert_eq!(FUNDAMENTAL_FREQUENCY, 440);
}

#[test]
fn new_generator_has_begun_no_frame() {
    let generator = ToneGenerator::new(48000);
    assert_eq!(generator.sample_rate(), 48000);
    assert_eq!(generator.frame_counter(), 0);
    assert_eq!(generator.phase_base(), 0);
}

#[test]
fn advance_frame_counts_and_recomputes() {
    let mut generator = ToneGenerator::new(44100);
    generator.advance_frame();
    assert_eq!(generator.frame_counter(), 1);
    assert_eq!(generator.phase_base(), 440);
    generator.advance_frame();
    generator.advance_frame();
    assert_eq!(generator.frame_counter(), 3);
    assert_eq!(generator.phase_base(), 1320);
    assert_eq!(generator.sample_rate(), 44100);
}

#[test]
fn phase_base_is_frequency_times_frames() {
    let mut generator = ToneGenerator::new(8000);
    for n in 1..=1000u64 {
        generator.advance_frame();
        assert_eq!(generator.frame_counter(), n);
        assert_eq!(generator.phase_base(), 440 * n as u128);
    }
}

#[test]
fn sample_multiplies_by_channel_and_changes_nothing() {
    let mut generator = ToneGenerator::new(48000);
    generator.advance_frame();
    generator.advance_frame();
    let third = generator.sample(3);
    assert_eq!(third, Phase { channel: 3, base: 880, sample_rate: 48000 });
    assert_eq!(generator.frame_counter(), 2);
    assert_eq!(generator.phase_base(), 880);
    assert_eq!(generator.sample(3), third);
}

#[test]
fn channels_of_a_frame_in_any_order() {
    let mut generator = ToneGenerator::new(48000);
    generator.advance_frame();
    let forward = [generator.sample(1), generator.sample(2), generator.sample(3)];
    let backward = [generator.sample(3), generator.sample(2), generator.sample(1)];
    assert_eq!(forward[0], backward[2]);
    assert_eq!(forward[1], backward[1]);
    assert_eq!(forward[2], backward[0]);
    for (index, phase) in forward.iter().enumerate() {
        assert_eq!(phase.channel, index + 1);
        assert_eq!(phase.base, 440);
    }
}

#[test]
fn next_value_opens_a_frame_on_channel_one_only() {
    let mut generator = ToneGenerator::new(44100);
    let a = generator.next_value(1);
    assert_eq!(a, Phase { channel: 1, base: 440, sample_rate: 44100 });
    assert_eq!(generator.frame_counter(), 1);
    let b = generator.next_value(2);
    assert_eq!(b, Phase { channel: 2, base: 440, sample_rate: 44100 });
    assert_eq!(generator.frame_counter(), 1);
    let c = generator.next_value(1);
    assert_eq!(c, Phase { channel: 1, base: 880, sample_rate: 44100 });
    assert_eq!(generator.frame_counter(), 2);
    let d = generator.next_value(2);
    assert_eq!(d, Phase { channel: 2, base: 880, sample_rate: 44100 });
    assert_eq!(generator.frame_counter(), 2);
}

#[test]
fn next_value_for_other_channels_repeats_the_frame() {
    let mut generator = ToneGenerator::new(44100);
    generator.next_value(1);
    for _ in 0..5 {
        assert_eq!(generator.next_value(2).base, 440);
        assert_eq!(generator.next_value(7).base, 440);
    }
    assert_eq!(generator.frame_counter(), 1);
    assert_eq!(generator.phase_base(), 440);
}

#[test]
fn other_channels_in_either_order() {
    let mut one = ToneGenerator::new(48000);
    one.next_value(1);
    let two_then_three = (one.next_value(2), one.next_value(3));
    let mut other = ToneGenerator::new(48000);
    other.next_value(1);
    let three_then_two = (other.next_value(3), other.next_value(2));
    assert_eq!(two_then_three.0, three_then_two.1);
    assert_eq!(two_then_three.1, three_then_two.0);
    assert_eq!(one.frame_counter(), other.frame_counter());
    assert_eq!(one.phase_base(), other.phase_base());
}

#[test]
fn channel_zero_is_silent_and_opens_no_frame() {
    let mut generator = ToneGenerator::new(48000);
    generator.advance_frame();
    let phase = generator.next_value(0);
    assert_eq!(phase, Phase { channel: 0, base: 440, sample_rate: 48000 });
    assert_eq!(phase.channel as u128 * phase.base, 0);
    assert_eq!(generator.frame_counter(), 1);
}

#[test]
fn before_the_first_frame_every_phase_is_zero() {
    let mut generator = ToneGenerator::new(48000);
    for channel in [0usize, 2, 3, 8, usize::MAX] {
        let phase = generator.sample(channel);
        assert_eq!(phase, Phase { channel, base: 0, sample_rate: 48000 });
        assert_eq!(generator.next_value(channel), phase);
    }
    assert_eq!(generator.frame_counter(), 0);
}

#[test]
fn sample_rate_zero_is_carried_through() {
    let mut generator = ToneGenerator::new(0);
    let phase = generator.next_value(1);
    assert_eq!(phase, Phase { channel: 1, base: 440, sample_rate: 0 });
}

#[test]
fn widest_values_are_held_exactly() {
    let mut generator = ToneGenerator::new(u32::MAX);
    generator.advance_frame();
    let phase = generator.sample(usize::MAX);
    assert_eq!(phase.channel, usize::MAX);
    assert_eq!(phase.base, 440);
    assert_eq!(phase.sample_rate, u32::MAX);
}
