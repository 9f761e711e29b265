use std::time::Duration;

use rodio_experiments::const_source::buffer::SamplesBuffer;
use rodio_experiments::const_source::mixed::IntoMixed;
use rodio_experiments::fixed_source::buffer::SamplesBuffer as FixedBuffer;
use rodio_experiments::fixed_source::mixed::{IntoMixed as IntoFixedMixed, ParamsMismatch};

/// The mean of one step's samples, computed as a mixer combines them.
fn mean(samples: Vec<f32>) -> f32 {
    let sum: f64 = samples.iter().map(|s| *s as f64).sum();
    (sum / samples.len() as f64) as f32
}

#[test]
fn mixed_is_mean_of_input_and_does_not_end_early() {
    let s1 = SamplesBuffer::<44100, 1, f32>::new(vec![1.0, 2.0, 3.0]);
    let s2 = SamplesBuffer::<44100, 1, f32>::new(vec![4.0, 5.0]);

    let mut mixed = (s1, s2).into_mixed();
    let mut out = Vec::new();
    while let Some(step) = mixed.next_samples() {
        out.push(mean(step));
    }
    assert_eq!(vec![2.5, 3.5, 3.0], out);
}

#[test]
fn duration() {
    let s1 = SamplesBuffer::<1, 1, f32>::new(vec![1.0, 2.0, 3.0]);
    let s2 = SamplesBuffer::<1, 1, f32>::new(vec![4.0, 5.0]);

    assert_eq!(
        Some(Duration::from_secs(3)),
        (s1, s2).into_mixed().total_duration()
    );
}

#[test]
fn mixed() {
    let s1 = SamplesBuffer::<44100, 1, f32>::new(vec![1.0, 2.0, 3.0]);
    let s2 = SamplesBuffer::<44100, 1, f32>::new(vec![4.0, 5.0]);

    let mut mixed = vec![s1, s2].into_mixed();
    let mut out = Vec::new();
    while let Some(step) = mixed.next_samples() {
        out.push(mean(step));
    }
    assert_eq!(vec![2.5, 3.5, 3.0], out);
}

#[test]
fn mixed_steps_keep_source_order() {
    let s1 = SamplesBuffer::<44100, 1, u8>::new(vec![1, 2]);
    let s2 = SamplesBuffer::<44100, 1, u8>::new(vec![3, 4, 5]);
    let s3 = SamplesBuffer::<44100, 1, u8>::new(vec![6]);

    let mut mixed = (s1, s2, s3).into_mixed();
    assert_eq!(Some(vec![1, 3, 6]), mixed.next_samples());
    assert_eq!(Some(vec![2, 4]), mixed.next_samples());
    assert_eq!(Some(vec![5]), mixed.next_samples());
    assert_eq!(None, mixed.next_samples());
}

#[test]
fn mixed_vec_duration_is_longest_known() {
    let s1 = SamplesBuffer::<2, 1, f32>::new(vec![0.0; 3]);
    let s2 = SamplesBuffer::<2, 1, f32>::new(vec![0.0; 8]);
    assert_eq!(
        Some(Duration::from_secs(4)),
        vec![s1, s2].into_mixed().total_duration()
    );
}

#[test]
fn mixed2() {
    let s1 = FixedBuffer::new(1, 1, vec![1.0f32, 2.0, 3.0]);
    let s2 = FixedBuffer::new(1, 1, vec![4.0f32, 5.0, 6.0]);

    let mut mixed = (s1, s2).try_into_mixed().unwrap();
    let mut out = Vec::new();
    while let Some(step) = mixed.next_samples() {
        out.push(mean(step));
    }
    assert_eq!(vec![2.5, 3.5, 4.5], out);
}

#[test]
fn mixed3() {
    let s1 = FixedBuffer::new(1, 1, vec![1.0f32]);
    let s2 = FixedBuffer::new(1, 1, vec![2.0f32]);
    let s3 = FixedBuffer::new(1, 1, vec![3.0f32]);

    let mut mixed = (s1, s2, s3).try_into_mixed().unwrap();
    let mut out = Vec::new();
    while let Some(step) = mixed.next_samples() {
        out.push(mean(step));
    }
    assert_eq!(vec![2.], out);
}

#[test]
fn mixed3_mismatch() {
    let s1 = FixedBuffer::new(1, 1, vec![1.0f32]);
    let s2 = FixedBuffer::new(2, 2, vec![2.0f32]);
    let s3 = FixedBuffer::new(1, 1, vec![3.0f32]);

    assert!((s1, s2, s3).try_into_mixed().is_err());
}

#[test]
fn mismatch_reports_the_first_differing_source() {
    let s1 = FixedBuffer::new(1, 8000, vec![1u8]);
    let s2 = FixedBuffer::new(1, 8000, vec![2u8]);
    let s3 = FixedBuffer::new(2, 44100, vec![3u8]);
    let s4 = FixedBuffer::new(1, 48000, vec![4u8]);

    assert_eq!(
        ParamsMismatch {
            index_of_first_mismatch: 1,
            sample_rate_left: 8000,
            channel_count_left: 1,
            sample_rate_right: 44100,
            channel_count_right: 2,
        },
        vec![s1, s2, s3, s4].try_into_mixed().err().unwrap()
    );
}

#[test]
fn fixed_mix_keeps_shared_parameters() {
    let s1 = FixedBuffer::new(2, 22050, vec![1u8, 2]);
    let s2 = FixedBuffer::new(2, 22050, vec![3u8, 4, 5, 6]);
    let mixed = (s1, s2).try_into_mixed().unwrap();
    assert_eq!(22050, mixed.sample_rate());
    assert_eq!(2, mixed.channels());
}
