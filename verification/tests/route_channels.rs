use rodio_experiments::const_source::buffer::SamplesBuffer;
use rodio_experiments::const_source::route_channels::array::CombineArrayChannels;
use rodio_experiments::const_source::route_channels::tuple::{CH12T, CH2T, CH3T};
use rodio_experiments::const_source::route_channels::vec::CombineChannels;
use rodio_experiments::ConstSource;

#[test]
fn array_combine_vec() {
    let s1 = SamplesBuffer::<44100, 1, f32>::new(vec![1.0, 3.0]);
    let s2 = SamplesBuffer::<44100, 1, f32>::new(vec![2.0, 4.0, 5.0, 6.0]);

    assert_eq!(
        vec![1.0, 2.0, 3.0, 4.0],
        [s1, s2].combine_channels::<2>().collect_samples()
    );
}

#[test]
fn vec_combine_vec() {
    let s1 = SamplesBuffer::<44100, 1, f32>::new(vec![1.0, 3.0]);
    let s2 = SamplesBuffer::<44100, 1, f32>::new(vec![2.0, 4.0, 5.0, 6.0]);

    assert_eq!(
        vec![1.0, 2.0, 3.0, 4.0],
        vec![s1, s2]
            .combine_channels::<2>()
            .unwrap()
            .collect_samples()
    );
}

#[test]
fn channel_count_adds() {
    let s1 = SamplesBuffer::<44100, 1, f32>::new(vec![]);
    let s2 = SamplesBuffer::<44100, 1, f32>::new(vec![]);

    let combined = (s1, s2).combine_channels::<2>();
    assert_eq!(combined.channels(), 2);
}

#[test]
fn stereo_samples_alternate() {
    let s1 = SamplesBuffer::<44100, 1, f32>::new(vec![1.0; 2]);
    let s2 = SamplesBuffer::<44100, 1, f32>::new(vec![2.0; 2]);

    let combined = (s1, s2).combine_channels::<2>();
    assert_eq!(combined.collect_samples(), vec![1.0, 2.0, 1.0, 2.0])
}

#[test]
fn five_channel_audio_samples_in_correct_order() {
    let s1 = SamplesBuffer::<44100, 2, f32>::new(vec![1.0, 2.0, 1.0, 2.0]);
    let s2 = SamplesBuffer::<44100, 1, f32>::new(vec![3.0; 2]);
    let s3 = SamplesBuffer::<44100, 2, f32>::new(vec![4.0, 5.0, 4.0, 5.0]);

    let combined = (s1, s2, s3).combine_channels::<5>();
    assert_eq!(
        combined.collect_samples(),
        vec![1.0, 2.0, 3.0, 4.0, 5.0, 1.0, 2.0, 3.0, 4.0, 5.0]
    )
}

#[test]
fn crazy() {
    let s1 = SamplesBuffer::<44100, 2, f32>::new(vec![1.0, 2.0]);
    let s2 = SamplesBuffer::<44100, 2, f32>::new(vec![1.0, 2.0]);
    let s3 = SamplesBuffer::<44100, 2, f32>::new(vec![1.0, 2.0]);
    let s4 = SamplesBuffer::<44100, 2, f32>::new(vec![1.0, 2.0]);
    let s5 = SamplesBuffer::<44100, 2, f32>::new(vec![1.0, 2.0]);
    let s6 = SamplesBuffer::<44100, 2, f32>::new(vec![1.0, 2.0]);
    let s7 = SamplesBuffer::<44100, 2, f32>::new(vec![1.0, 2.0]);
    let s8 = SamplesBuffer::<44100, 2, f32>::new(vec![1.0, 2.0]);
    let s9 = SamplesBuffer::<44100, 2, f32>::new(vec![1.0, 2.0]);
    let s10 = SamplesBuffer::<44100, 2, f32>::new(vec![1.0, 2.0]);
    let s11 = SamplesBuffer::<44100, 2, f32>::new(vec![1.0, 2.0]);
    let s12 = SamplesBuffer::<44100, 2, f32>::new(vec![1.0, 2.0]);

    let combined = (s1, s2, s3, s4, s5, s6, s7, s8, s9, s10, s11, s12).combine_channels::<24>();

    assert_eq!(combined.channels(), 24);
    assert_eq!(
        combined.collect_samples(),
        [1f32, 2.0].into_iter().cycle().take(24).collect::<Vec<_>>()
    )
}
