use std::time::Duration;

use rodio_experiments::const_source::buffer::SamplesBuffer;
use rodio_experiments::const_source::{ConstSource, ConstSourceExt};
use rodio_experiments::effects::fade::{ramp_step, RampGain};
use rodio_experiments::effects::inspect::FrameCollector;
use rodio_experiments::effects::take_duration::TakeDuration;
use rodio_experiments::fixed_source::buffer::SamplesBuffer as FixedBuffer;
use rodio_experiments::fixed_source::{FixedSource, FixedSourceExt};

#[test]
fn take_samples_stops_after_the_count() {
    let source = SamplesBuffer::<44100, 1, f32>::new(vec![1.0, 2.0, 3.0, 4.0]);
    assert_eq!(vec![1.0, 2.0], source.take_samples(2).collect_samples());
}

#[test]
fn take_samples_of_a_shorter_source_plays_it_all() {
    let source = SamplesBuffer::<44100, 1, f32>::new(vec![1.0, 2.0]);
    assert_eq!(vec![1.0, 2.0], source.take_samples(10).collect_samples());
}

#[test]
fn take_samples_keeps_the_reported_duration() {
    let source = SamplesBuffer::<1, 1, f32>::new(vec![0.0; 4]);
    assert_eq!(
        Some(Duration::from_secs(4)),
        source.take_samples(1).total_duration()
    );
}

#[test]
fn take_duration_plays_the_given_count() {
    let source = SamplesBuffer::<2, 1, u8>::new(vec![1, 2, 3, 4, 5, 6]);
    assert_eq!(
        vec![1, 2, 3],
        TakeDuration::from_samples(source, 3).collect_samples()
    );
}

#[test]
fn take_duration_of_a_fixed_source_keeps_its_parameters() {
    let source = FixedBuffer::new(2, 4, vec![1u8, 2, 3, 4, 5, 6]);
    let taken = TakeDuration::from_samples(source, 2);
    assert_eq!(4, taken.sample_rate());
    assert_eq!(2, taken.channels());
    assert_eq!(vec![1, 2], taken.collect_samples());
}

#[test]
fn take_duration_of_nothing_plays_nothing() {
    let source = SamplesBuffer::<44100, 2, u8>::new(vec![1, 2]);
    assert!(TakeDuration::from_samples(source, 0)
        .collect_samples()
        .is_empty());
}

#[test]
fn stoppable_plays_the_source() {
    let mut source = SamplesBuffer::<44100, 2, u8>::new(vec![1, 2, 3, 4]).stoppable();
    assert_eq!(Some(1), source.next());
    source.stop();
    assert_eq!(vec![2, 3, 4], source.collect_samples());
}

#[test]
fn pausable_plays_silence_while_paused() {
    let source = FixedBuffer::new(2, 44100, vec![1i16, 2, 3, 4]);
    let mut paused = source.pausable(true, 0);
    assert_eq!(Some(0), paused.next());
    assert_eq!(Some(0), paused.next());
    assert_eq!(Some(0), paused.next());
    paused.set_paused(false);
    // one more sample of silence, then the source plays from where it was
    assert_eq!(Some(0), paused.next());
    assert_eq!(Some(1), paused.next());
    assert_eq!(Some(2), paused.next());
    paused.set_paused(true);
    assert_eq!(Some(0), paused.next());
    paused.set_paused(false);
    assert_eq!(Some(0), paused.next());
    assert_eq!(Some(3), paused.next());
    assert_eq!(Some(4), paused.next());
    assert_eq!(None, paused.next());
}

#[test]
fn pausable_not_paused_plays_at_once() {
    let source = FixedBuffer::new(1, 44100, vec![7u8, 8]);
    let mut playing = source.pausable(false, 0);
    assert_eq!(Some(7), playing.next());
    assert_eq!(Some(8), playing.next());
    assert_eq!(None, playing.next());
}

#[test]
fn pausing_twice_is_pausing_once() {
    let source = FixedBuffer::new(2, 44100, vec![1u8, 2]);
    let mut p = source.pausable(false, 9);
    p.set_paused(true);
    p.set_paused(true);
    assert_eq!(Some(9), p.next());
    assert_eq!(Some(9), p.next());
    p.set_paused(false);
    p.set_paused(false);
    assert_eq!(Some(9), p.next());
    assert_eq!(Some(1), p.next());
    assert_eq!(Some(2), p.next());
}

#[test]
fn with_data_carries_a_value() {
    let source = SamplesBuffer::<44100, 1, u8>::new(vec![1, 2]);
    let mut with = source.with_data(String::from("label"));
    assert_eq!("label", with.data());
    with.data_mut().push('s');
    assert_eq!(Some(1), with.next());
    assert_eq!("labels", with.data());
    assert_eq!(vec![2], with.collect_samples());
}

#[test]
fn track_position_counts_seconds() {
    let source = SamplesBuffer::<2, 2, u8>::new(vec![0; 10]);
    let mut position = source.track_position();
    assert_eq!(Duration::ZERO, position.get_pos());
    for _ in 0..4 {
        position.next();
    }
    assert_eq!(Duration::from_secs(1), position.get_pos());
    for _ in 0..4 {
        position.next();
    }
    assert_eq!(Duration::from_secs(2), position.get_pos());
}

#[test]
fn track_position_sub_second_part() {
    // one sample into a mono source at 4 samples per second
    let source = SamplesBuffer::<4, 1, u8>::new(vec![0; 3]);
    let mut position = source.track_position();
    position.next();
    assert_eq!(Duration::ZERO, position.get_pos());
    // with two channels the rest is reduced modulo the channel count
    let source = SamplesBuffer::<4, 2, u8>::new(vec![0; 3]);
    let mut position = source.track_position();
    position.next();
    assert_eq!(Duration::from_millis(125), position.get_pos());
}

#[test]
fn track_position_stops_counting_at_the_end() {
    let source = SamplesBuffer::<1, 1, u8>::new(vec![0; 2]);
    let mut position = source.track_position();
    for _ in 0..5 {
        position.next();
    }
    assert_eq!(Duration::from_secs(2), position.get_pos());
}

#[test]
fn taking_twice_takes_the_smaller_count() {
    let source = SamplesBuffer::<44100, 1, u8>::new(vec![1, 2, 3, 4, 5]);
    assert_eq!(
        vec![1, 2],
        source.take_samples(4).take_samples(2).collect_samples()
    );
    let source = SamplesBuffer::<44100, 1, u8>::new(vec![1, 2, 3, 4, 5]);
    assert_eq!(
        vec![1, 2],
        source.take_samples(2).take_samples(4).collect_samples()
    );
}

#[test]
fn ramp_step_moves_on_at_frame_boundaries() {
    // stereo at 4 samples per second: a period is 250 ms
    let (gain, elapsed, idx) = ramp_step(0, 1_000_000_000, 0, 2, 4, true);
    assert_eq!(RampGain::Interpolate { elapsed: 0, total: 1_000_000_000 }, gain);
    assert_eq!((0, 1), (elapsed, idx));
    let (gain, elapsed, idx) = ramp_step(elapsed, 1_000_000_000, idx, 2, 4, true);
    assert_eq!(RampGain::Interpolate { elapsed: 0, total: 1_000_000_000 }, gain);
    assert_eq!((250_000_000, 2), (elapsed, idx));
}

#[test]
fn ramp_step_after_the_end() {
    // the count stays; at a multiple of the channel count the clock moves
    assert_eq!(
        (RampGain::End, 1_250_000_000, 8),
        ramp_step(1_000_000_000, 1_000_000_000, 8, 2, 4, true)
    );
    // a count that is no multiple of the channel count stops the clock
    assert_eq!(
        (RampGain::Unity, 1_000_000_000, 7),
        ramp_step(1_000_000_000, 1_000_000_000, 7, 2, 4, false)
    );
    // mono: every sample after the end still moves the clock on
    assert_eq!(
        (RampGain::Unity, 1_250_000_000, 4),
        ramp_step(1_000_000_000, 1_000_000_000, 4, 1, 4, false)
    );
}

#[test]
fn frames_are_handed_out_when_complete() {
    let mut frames = FrameCollector::<u8>::new(2);
    assert_eq!(None, frames.push(1));
    let frame = frames.push(2).unwrap();
    assert_eq!(vec![1, 2], frame);
    frames.give_back(frame);
    assert_eq!(None, frames.push(3));
    assert_eq!(Some(vec![3, 4]), frames.push(4));
}
