use std::time::Duration;

use rodio_experiments::const_source::buffer::SamplesBuffer;
use rodio_experiments::const_source::list::IntoList;
use rodio_experiments::const_source::queued::IntoQueued;
use rodio_experiments::ConstSource;

#[test]
fn queued_queue2() {
    let s1 = SamplesBuffer::<44100, 1, f32>::new(vec![1.0, 2.0, 3.0]);
    let s2 = SamplesBuffer::<44100, 1, f32>::new(vec![4.0, 5.0, 6.0]);

    assert_eq!(
        vec![1., 2., 3., 4., 5., 6.],
        (s1, s2).into_queued().collect_samples()
    );
}

#[test]
fn queued_duration3() {
    let s1 = SamplesBuffer::<1, 1, f32>::new(vec![1.0; 3]);
    let s2 = SamplesBuffer::<1, 1, f32>::new(vec![1.0; 1]);
    let s3 = SamplesBuffer::<1, 1, f32>::new(vec![1.0; 2]);

    let mut queued = (s1, s2, s3).into_queued();

    assert_eq!(Some(Duration::from_secs(6)), queued.total_duration());

    for _ in 0..4 {
        let _ = queued.next();
    }
    assert_eq!(Some(Duration::from_secs(6)), queued.total_duration());
}

#[test]
fn tuple_queue2() {
    let s1 = SamplesBuffer::<44100, 1, f32>::new(vec![1.0, 2.0, 3.0]);
    let s2 = SamplesBuffer::<44100, 1, f32>::new(vec![4.0, 5.0, 6.0]);

    assert_eq!(
        vec![1., 2., 3., 4., 5., 6.],
        (s1, s2).into_list().collect_samples()
    );
}

#[test]
fn tuple_duration3() {
    let s1 = SamplesBuffer::<1, 1, f32>::new(vec![1.0; 3]);
    let s2 = SamplesBuffer::<1, 1, f32>::new(vec![1.0; 1]);
    let s3 = SamplesBuffer::<1, 1, f32>::new(vec![1.0; 2]);

    let mut queued = (s1, s2, s3).into_list();

    assert_eq!(Some(Duration::from_secs(6)), queued.total_duration());

    for _ in 0..4 {
        let _ = queued.next();
    }
    assert_eq!(Some(Duration::from_secs(6)), queued.total_duration());
}

#[test]
fn drained_queue_stays_drained() {
    let s1 = SamplesBuffer::<1, 1, u8>::new(vec![1]);
    let s2 = SamplesBuffer::<1, 1, u8>::new(vec![2]);
    let mut queued = (s1, s2).into_queued();
    assert_eq!(Some(1), queued.next());
    assert_eq!(Some(2), queued.next());
    assert_eq!(None, queued.next());
    assert_eq!(None, queued.next());
    assert_eq!(None, queued.next());
}

#[test]
fn drained_vec_list_stays_drained() {
    let sources = vec![SamplesBuffer::<1, 1, u8>::new(vec![1])];
    let mut list = sources.into_list();
    assert_eq!(Some(1), list.next());
    assert_eq!(None, list.next());
    assert_eq!(None, list.next());
}
