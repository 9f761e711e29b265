use rodio_experiments::common::mixer::MixerHandleInner;
use rodio_experiments::const_source::buffer::SamplesBuffer;
use rodio_experiments::const_source::mixer::Mixer;

/// The mean of one step's samples, computed as the mixer combines them.
fn mean(samples: Vec<f32>) -> f32 {
    let sum: f64 = samples.iter().map(|s| *s as f64).sum();
    (sum / samples.len() as f64) as f32
}

fn next<const SR: u32, const CH: u16>(
    mixer: &mut Mixer<SR, CH, SamplesBuffer<SR, CH, f32>>,
    handle: &mut MixerHandleInner<SamplesBuffer<SR, CH, f32>>,
) -> Option<f32> {
    mixer.next_step(handle).map(mean)
}

fn rest<const SR: u32, const CH: u16>(
    mixer: &mut Mixer<SR, CH, SamplesBuffer<SR, CH, f32>>,
    handle: &mut MixerHandleInner<SamplesBuffer<SR, CH, f32>>,
) -> Vec<f32> {
    let mut out = Vec::new();
    while let Some(sample) = next(mixer, handle) {
        out.push(sample);
    }
    out
}

#[test]
fn add_before_play() {
    let a: SamplesBuffer<44100, 1, f32> = SamplesBuffer::new(vec![1.0, 3.0, 3.0]);
    let b = SamplesBuffer::new(vec![1.0, 2.0]);
    let (mut mixer, mut source) = Mixer::new();
    mixer.add_unchecked(a);
    mixer.add_unchecked(b);

    assert_eq!(vec![1.0, 2.5, 3.0], rest(&mut source, &mut mixer))
}

#[test]
fn add_midway() {
    let a: SamplesBuffer<44100, 1, f32> = SamplesBuffer::new(vec![1.0, 3.0, 3.0]);
    let b = SamplesBuffer::new(/*                         */ vec![1.0, 2.0]);
    let (mut mixer, mut source) = Mixer::new();
    mixer.add_unchecked(a);

    let _ = next(&mut source, &mut mixer);
    mixer.add_unchecked(b);

    assert_eq!(vec![2.0, 2.5], rest(&mut source, &mut mixer))
}

#[test]
fn add_is_frame_aligned() {
    let a: SamplesBuffer<44100, 2, f32> = SamplesBuffer::new(vec![1.0, 1.0, 2.0, 2.0, 3.0, 3.0]);
    let b = SamplesBuffer::new(/*                              */ vec![1.0, 1.0, 2.0, 2.0]);
    let (mut mixer, mut source) = Mixer::new();
    mixer.add_unchecked(a);
    assert_eq!(next(&mut source, &mut mixer), Some(1.0));
    mixer.add_unchecked(b);
    assert_eq!(next(&mut source, &mut mixer), Some(1.0));

    assert_eq!(vec![1.5, 1.5, 2.5, 2.5], rest(&mut source, &mut mixer))
}

#[test]
fn removal_waits_for_a_flagged_change() {
    let a: SamplesBuffer<44100, 1, f32> = SamplesBuffer::new(vec![1.0, 1.0, 1.0]);
    let b = SamplesBuffer::new(vec![3.0, 3.0, 3.0]);
    let (mut mixer, mut source) = Mixer::new();
    let _key_a = mixer.add_unchecked(a);
    let key_b = mixer.add_unchecked(b);
    assert_eq!(next(&mut source, &mut mixer), Some(2.0));
    mixer.remove(key_b);
    // removing flags no change of its own; the removal is applied with the
    // next addition
    assert_eq!(next(&mut source, &mut mixer), Some(2.0));
}

#[test]
fn keys_are_handed_out_in_order() {
    let (mut mixer, _source) =
        Mixer::<44100, 1, SamplesBuffer<44100, 1, f32>>::new();
    let k1 = mixer.add_unchecked(SamplesBuffer::new(vec![0.0]));
    let k2 = mixer.add_unchecked(SamplesBuffer::new(vec![0.0]));
    assert_ne!(k1, k2);
}
