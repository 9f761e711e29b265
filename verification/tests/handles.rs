use rodio_experiments::common::mixer::MixerHandleInner;
use rodio_experiments::common::queue::QueueHandleInner;
use rodio_experiments::common::{swap_append, SourceShare};

#[test]
fn removal_and_addition_are_applied_together() {
    let mut handle = MixerHandleInner::<u8>::new();
    let a = handle.add_unchecked(1);
    let b = handle.add_unchecked(2);
    let mut playing = Vec::new();
    handle.apply_changes(&mut playing);
    assert_eq!(vec![(1, a), (2, b)], playing);
    assert!(!handle.sources_changed());

    handle.remove(a);
    // a removal alone does not flag a change
    assert!(!handle.sources_changed());
    let c = handle.add_unchecked(3);
    assert!(handle.sources_changed());
    handle.apply_changes(&mut playing);
    assert_eq!(vec![(2, b), (3, c)], playing);
}

#[test]
fn keys_are_fresh() {
    let mut handle = QueueHandleInner::<u8>::new();
    let a = handle.add_unchecked(1);
    let b = handle.add_unchecked(1);
    let c = handle.new_key();
    assert_ne!(a, b);
    assert_ne!(b, c);
    assert_ne!(a, c);
    assert!(handle.can_add());
}

#[test]
fn swap_append_moves_everything() {
    let mut current = vec![1, 2];
    let mut new = vec![3, 4, 5];
    swap_append(&mut current, &mut new);
    assert_eq!(vec![1, 2, 3, 4, 5], current);
    assert!(new.is_empty());
}

#[test]
fn share_keeps_removals_after_an_update() {
    let mut share = SourceShare::<u8, rodio_experiments::common::mixer::MixerKey>::new();
    let mut handle = MixerHandleInner::<u8>::new();
    let key = handle.new_key();
    share.schedule_addition(7, key);
    share.schedule_removal(key);
    let mut current = Vec::new();
    share.update(&mut current);
    // the addition lands after the removal was applied to the old list
    assert_eq!(vec![(7, key)], current);
    share.update(&mut current);
    assert!(current.is_empty());
}

#[test]
fn many_keys_are_all_different() {
    let mut handle = MixerHandleInner::<u8>::new();
    let mut keys = Vec::new();
    for i in 0..100u8 {
        keys.push(handle.add_unchecked(i));
    }
    for i in 0..keys.len() {
        for j in 0..i {
            assert_ne!(keys[i], keys[j]);
        }
    }
}
