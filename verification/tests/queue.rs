use std::time::Duration;

use rodio_experiments::common::queue::QueueHandleInner;
use rodio_experiments::const_source::buffer::SamplesBuffer;
use rodio_experiments::const_source::queue::Queue;

type Buffer = SamplesBuffer<1, 1, u8>;

fn drain(queue: &mut Queue<1, 1, Buffer>, handle: &mut QueueHandleInner<Buffer>) -> Vec<u8> {
    let mut out = Vec::new();
    while let Some(sample) = queue.next_step(handle) {
        out.push(sample);
    }
    out
}

#[test]
fn queue_plays_added_sources_in_order() {
    let (mut handle, mut queue) = Queue::<1, 1, Buffer>::new();
    handle.add_unchecked(SamplesBuffer::new(vec![1, 2]));
    handle.add_unchecked(SamplesBuffer::new(vec![3]));
    assert_eq!(vec![1, 2, 3], drain(&mut queue, &mut handle));
}

#[test]
fn queue_plays_sources_added_while_playing() {
    let (mut handle, mut queue) = Queue::<1, 1, Buffer>::new();
    handle.add_unchecked(SamplesBuffer::new(vec![1, 2]));
    assert_eq!(Some(1), queue.next_step(&mut handle));
    handle.add_unchecked(SamplesBuffer::new(vec![3, 4]));
    assert_eq!(vec![2, 3, 4], drain(&mut queue, &mut handle));
}

#[test]
fn empty_queue_plays_nothing() {
    let (mut handle, mut queue) = Queue::<1, 1, Buffer>::new();
    assert_eq!(None, queue.next_step(&mut handle));
}

#[test]
fn queue_duration_is_the_sum() {
    let (mut handle, mut queue) = Queue::<1, 1, Buffer>::new();
    handle.add_unchecked(SamplesBuffer::new(vec![0; 2]));
    handle.add_unchecked(SamplesBuffer::new(vec![0; 3]));
    assert_eq!(Some(0), queue.next_step(&mut handle));
    assert_eq!(Some(Duration::from_secs(5)), queue.total_duration());
}
