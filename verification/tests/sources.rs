use std::time::Duration;

use rodio_experiments::const_source::buffer::SamplesBuffer;
use rodio_experiments::const_source::{ConstSource, ConstSourceExt};
use rodio_experiments::dynamic_source::DynamicSource;
use rodio_experiments::dynamic_source_ext::{ExtendDynamicSource, ParametersCanChange};
use rodio_experiments::fixed_source::buffer::SamplesBuffer as FixedBuffer;
use rodio_experiments::fixed_source::{
    FixedSource, FixedSourceExt, MismatchedParameters, ParameterMismatch,
};

#[test]
fn chain_plays_one_source_after_the_other() {
    let preamble = SamplesBuffer::<44100, 1, f32>::new(vec![1.0, 1.0]);
    let signal = SamplesBuffer::<44100, 1, f32>::new(vec![2.0, 2.0]);

    let mixed = preamble.chain_source(signal);
    assert_eq!(mixed.collect_samples(), vec![1.0, 1.0, 2.0, 2.0])
}

#[test]
fn chain_duration_is_the_sum() {
    let a = SamplesBuffer::<1, 1, f32>::new(vec![0.0; 2]);
    let b = SamplesBuffer::<1, 1, f32>::new(vec![0.0; 3]);
    assert_eq!(
        Some(Duration::from_secs(5)),
        a.chain_source(b).total_duration()
    );
}

#[test]
fn collect_into_buffer_keeps_the_samples() {
    let source = SamplesBuffer::<44100, 2, u8>::new(vec![1, 2, 3, 4]).take_samples(3);
    let buffer = source.collect_into_buffer();
    assert_eq!(vec![1, 2, 3], buffer.collect_samples());
}

#[test]
fn fixed_collect_into_buffer_keeps_parameters() {
    let source = FixedBuffer::new(2, 8000, vec![1u8, 2, 3, 4]);
    let buffer = source.take_samples(2).collect_into_buffer();
    assert_eq!(2, buffer.channels());
    assert_eq!(8000, buffer.sample_rate());
    assert_eq!(vec![1, 2], buffer.collect_samples());
}

#[test]
fn fixed_buffer_duration() {
    let buffer = FixedBuffer::new(2, 2, vec![0u8; 8]);
    assert_eq!(Some(Duration::from_secs(2)), buffer.total_duration());
    let buffer = FixedBuffer::new(1, 4, vec![0u8; 3]);
    assert_eq!(Some(Duration::from_millis(750)), buffer.total_duration());
}

#[test]
fn const_as_fixed_source() {
    let source = SamplesBuffer::<48000, 2, u8>::new(vec![5, 6]).into_fixed_source();
    assert_eq!(48000, FixedSource::sample_rate(&source));
    assert_eq!(2, FixedSource::channels(&source));
    assert_eq!(vec![5, 6], FixedSource::collect_samples(source));
}

#[test]
fn fixed_into_const_source_with_matching_parameters() {
    let source = FixedBuffer::new(2, 44100, vec![1u8, 2]);
    let converted = source.try_into_const_source::<44100, 2>().unwrap();
    assert_eq!(vec![1, 2], converted.collect_samples());
}

#[test]
fn fixed_into_const_source_with_other_parameters() {
    let source = FixedBuffer::new(2, 44100, vec![1u8, 2]);
    let err = source.try_into_const_source::<48000, 2>().err().unwrap();
    assert_eq!(
        ParameterMismatch::<48000, 2> {
            sample_rate: 44100,
            channel_count: 2
        },
        err
    );
    let source = FixedBuffer::new(1, 44100, vec![1u8, 2]);
    assert!(source.try_into_const_source::<44100, 2>().is_err());
}

#[test]
fn dynamic_source_without_spans_is_fixed() {
    let source = SamplesBuffer::<44100, 1, u8>::new(vec![3, 4]).into_dynamic_source();
    assert_eq!(None, DynamicSource::current_span_len(&source));
    let fixed = source.try_as_fixed_source().ok().unwrap();
    assert_eq!(44100, fixed.sample_rate());
    assert_eq!(vec![3, 4], fixed.collect_samples());
}

#[test]
fn parameters_can_change_is_its_own_error() {
    let e = ParametersCanChange;
    assert_eq!(ParametersCanChange, e);
}

#[test]
fn duration_is_split_into_seconds_and_nanoseconds() {
    // 3 samples at 2 samples per second on 1 channel
    let source = SamplesBuffer::<2, 1, u8>::new(vec![0; 3]);
    let d = source.total_duration().unwrap();
    assert_eq!(1, d.as_secs());
    assert_eq!(500_000_000, d.subsec_nanos());
}

#[test]
fn parameter_mismatch_names_what_differs() {
    let only_channels = ParameterMismatch::<44100, 2> {
        sample_rate: 44100,
        channel_count: 1,
    };
    assert_eq!(MismatchedParameters::ChannelCount, only_channels.what_differs());
    let only_rate = ParameterMismatch::<44100, 2> {
        sample_rate: 48000,
        channel_count: 2,
    };
    assert_eq!(MismatchedParameters::SampleRate, only_rate.what_differs());
    let both = ParameterMismatch::<44100, 2> {
        sample_rate: 48000,
        channel_count: 1,
    };
    assert_eq!(MismatchedParameters::Both, both.what_differs());
}

#[test]
fn const_to_fixed_and_back_keeps_the_samples() {
    let source = SamplesBuffer::<22050, 2, u8>::new(vec![1, 2, 3, 4]);
    let back = source
        .into_fixed_source()
        .try_into_const_source::<22050, 2>()
        .ok()
        .unwrap();
    assert_eq!(Some(Duration::from_nanos(90_702)), back.total_duration());
    assert_eq!(vec![1, 2, 3, 4], back.collect_samples());
}

#[test]
fn dynamic_effects_keep_the_span() {
    let source = SamplesBuffer::<8000, 1, u8>::new(vec![1, 2, 3]).into_dynamic_source();
    let mut stoppable = ExtendDynamicSource::stoppable(source);
    assert_eq!(None, DynamicSource::current_span_len(&stoppable));
    assert_eq!(8000, DynamicSource::sample_rate(&stoppable));
    assert_eq!(Some(1), DynamicSource::next(&mut stoppable));
    let with = ExtendDynamicSource::with_data(stoppable, 5u32);
    assert_eq!(5, *with.data());
    let fixed = with.try_as_fixed_source().ok().unwrap();
    assert_eq!(vec![2, 3], fixed.collect_samples());
}
