use std::fmt::{Debug, Display};
use vstd::prelude::*;

pub mod mixer;
pub mod queue;

verus! {

/// Sample rate (a frame rate or samples per second per channel); never zero.
pub type SampleRate = u32;

/// Number of channels in a stream; never zero.
pub type ChannelCount = u16;

/// Number of bits per sample; never zero.
pub type BitDepth = u32;

/// Compiles only for types that can travel as errors between threads:
/// `Send`, `Sync`, `'static`, printable and clonable.
pub fn use_required_traits<T: Send + Sync + 'static + Display + Debug + Clone>() {
}

/// A key that identifies a source added to a mixer or a queue.
pub trait SourceKey: Copy {
    /// Compares two keys.
    fn same_key(&self, other: &Self) -> (r: bool)
        ensures
            r == (*self == *other),
    ;
}

/// The entries of `current` whose key is not in `removed`, in order.
pub open spec fn retained<S, K>(current: Seq<(S, K)>, removed: Seq<K>) -> Seq<(S, K)>
    decreases current.len(),
{
    if current.len() == 0 {
        Seq::empty()
    } else if removed.contains(current.last().1) {
        retained(current.drop_last(), removed)
    } else {
        retained(current.drop_last(), removed).push(current.last())
    }
}

/// An update keeps exactly the sources whose key was not scheduled for
/// removal, in their order: the list filtered by "not removed".
pub proof fn lemma_retained_is_filter<S, K>(current: Seq<(S, K)>, removed: Seq<K>)
    ensures
        retained(current, removed) == current.filter(|e: (S, K)| !removed.contains(e.1)),
    decreases current.len(),
{
    reveal(Seq::filter);
    if current.len() > 0 {
        lemma_retained_is_filter(current.drop_last(), removed);
    }
}

/// Every source whose key was not scheduled for removal is still in the
/// list after an update, and no source whose key was is.
pub proof fn lemma_retained_members<S, K>(current: Seq<(S, K)>, removed: Seq<K>)
    ensures
        forall|i: int|
            0 <= i < current.len() && !removed.contains(current[i].1) ==> retained(
                current,
                removed,
            ).contains(#[trigger] current[i]),
        forall|j: int|
            0 <= j < retained(current, removed).len() ==> !removed.contains(
                (#[trigger] retained(current, removed)[j]).1,
            ),
{
    lemma_retained_is_filter(current, removed);
    current.filter_lemma(|e: (S, K)| !removed.contains(e.1));
}

/// A source whose key was scheduled for removal is not in the list after
/// an update.
pub proof fn lemma_removed_key_gone<S, K>(current: Seq<(S, K)>, removed: Seq<K>, key: K)
    requires
        removed.contains(key),
    ensures
        forall|i: int|
            0 <= i < retained(current, removed).len() ==> #[trigger] retained(
                current,
                removed,
            )[i].1 != key,
    decreases current.len(),
{
    if current.len() > 0 {
        lemma_removed_key_gone(current.drop_last(), removed, key);
        let prev = retained(current.drop_last(), removed);
        if !removed.contains(current.last().1) {
            assert forall|i: int| 0 <= i < prev.push(current.last()).len() implies #[trigger] prev.push(
                current.last(),
            )[i].1 != key by {
                if i < prev.len() {
                    assert(prev.push(current.last())[i] == prev[i]);
                }
            }
        }
    }
}

/// Every source whose key was not scheduled for removal stays in the list
/// after an update, and the list keeps its order.
pub proof fn lemma_unremoved_kept<S, K>(current: Seq<(S, K)>, removed: Seq<K>)
    ensures
        retained(current, removed).len() <= current.len(),
        (forall|i: int| 0 <= i < current.len() ==> !removed.contains(#[trigger] current[i].1))
            ==> retained(current, removed) == current,
    decreases current.len(),
{
    if current.len() > 0 {
        lemma_unremoved_kept(current.drop_last(), removed);
        if forall|i: int| 0 <= i < current.len() ==> !removed.contains(#[trigger] current[i].1) {
            assert forall|i: int| 0 <= i < current.drop_last().len() implies !removed.contains(
                #[trigger] current.drop_last()[i].1,
            ) by {
                assert(current.drop_last()[i] == current[i]);
            }
            assert(!removed.contains(current[current.len() - 1].1));
            assert(current.drop_last().push(current.last()) =~= current);
        }
    }
}


/// Changes to a list of playing sources, prepared on another thread so that
/// the audio thread neither allocates nor frees memory.
pub struct SourceShare<S, K> {
    capacity: usize,
    len: usize,
    to_remove: Vec<K>,
    /// we do not allocate on the audio thread
    /// instead the handle does that
    new_vec: Vec<(S, K)>,
    /// we do not deallocate on the audio thread
    /// instead the handle does that
    old_vec: Option<Vec<(S, K)>>,
}

impl<S, K: SourceKey> SourceShare<S, K> {
    /// Sources waiting to be added, in the order they were scheduled.
    pub closed spec fn additions(&self) -> Seq<(S, K)> {
        self.new_vec@
    }

    /// Keys of the sources scheduled for removal.
    pub closed spec fn removals(&self) -> Seq<K> {
        self.to_remove@
    }

    /// The retired vector held back, if any, so that it is freed by the
    /// thread that schedules changes and not by the audio thread.
    pub closed spec fn retired(&self) -> Option<Seq<(S, K)>> {
        match self.old_vec {
            Some(v) => Some(v@),
            None => None,
        }
    }

    /// How many sources the list held after the last update.
    pub closed spec fn known_len(&self) -> nat {
        self.len as nat
    }

    /// The share's own invariant: the room asked for covers the pending
    /// additions.
    pub closed spec fn wf(&self) -> bool {
        self.capacity >= self.new_vec@.len()
    }

    /// A share with nothing scheduled.
    pub fn new() -> (r: Self)
        ensures
            r.wf(),
            r.additions() == Seq::<(S, K)>::empty(),
            r.removals() == Seq::<K>::empty(),
            r.retired() == None::<Seq<(S, K)>>,
            r.known_len() == 0,
    {
        SourceShare {
            capacity: 0,
            len: 0,
            to_remove: Vec::new(),
            new_vec: Vec::new(),
            old_vec: None,
        }
    }

    /// Schedules `source` under `key` to be added; frees the allocation
    /// retired by the last update. The pending additions are given room for
    /// every source the list will hold after the next update (doubled when
    /// it has to grow), so that the update, which runs on the audio thread,
    /// does not allocate.
    pub fn schedule_addition(&mut self, source: S, key: K)
        requires
            old(self).wf(),
        ensures
            final(self).wf(),
            final(self).additions() == old(self).additions().push((source, key)),
            final(self).removals() == old(self).removals(),
            final(self).retired() == None::<Seq<(S, K)>>,
            final(self).known_len() == old(self).known_len(),
    {
        let _drop = self.old_vec.take();

        let wanted = self.len.saturating_add(self.new_vec.len()).saturating_add(1);
        if wanted > self.capacity {
            self.capacity = if wanted <= usize::MAX / 2 {
                wanted * 2
            } else {
                wanted
            };
        }
        let pending = self.new_vec.len();
        let additional = self.capacity - pending;
        self.new_vec.reserve(additional);
        self.new_vec.push((source, key));
        // a vector's length always fits a `usize`
        let after = self.new_vec.len();
        assert(after == pending + 1);
    }

    /// Applies the scheduled changes to `current_vec`: sources whose key was
    /// scheduled for removal leave it and the scheduled additions join it at
    /// its end. The emptied allocation is kept to be freed later.
    pub fn update(&mut self, current_vec: &mut Vec<(S, K)>)
        requires
            old(self).wf(),
        ensures
            final(self).wf(),
            final(current_vec)@ == retained(old(current_vec)@, old(self).removals()) + old(
                self,
            ).additions(),
            final(self).additions() == Seq::<(S, K)>::empty(),
            final(self).removals() == old(self).removals(),
            final(self).retired() == Some(Seq::<(S, K)>::empty()),
            final(self).known_len() == final(current_vec)@.len(),
    {
        retain_unremoved(current_vec, &self.to_remove);

        swap_append(current_vec, &mut self.new_vec);
        self.len = current_vec.len();

        let mut taken: Vec<(S, K)> = Vec::new();
        std::mem::swap(&mut taken, &mut self.new_vec);
        self.old_vec = Some(taken);
    }

    /// Schedules the source added under `key` for removal.
    pub fn schedule_removal(&mut self, key: K)
        requires
            old(self).wf(),
        ensures
            final(self).wf(),
            final(self).removals() == old(self).removals().push(key),
            final(self).additions() == old(self).additions(),
            final(self).retired() == old(self).retired(),
            final(self).known_len() == old(self).known_len(),
    {
        self.to_remove.push(key);
    }
}

/// Whether `key` is one of `keys`.
fn contains_key<K: SourceKey>(keys: &Vec<K>, key: &K) -> (r: bool)
    ensures
        r == keys@.contains(*key),
{
    let mut i: usize = 0;
    while i < keys.len()
        invariant
            i <= keys.len(),
            forall|j: int| 0 <= j < i ==> keys@[j] != *key,
        decreases keys.len() - i,
    {
        if keys[i].same_key(key) {
            return true;
        }
        i = i + 1;
    }
    false
}

/// Removes, in place and keeping the order, the entries whose key is in `removed`.
fn retain_unremoved<S, K: SourceKey>(current: &mut Vec<(S, K)>, removed: &Vec<K>)
    ensures
        final(current)@ == retained(old(current)@, removed@),
{
    let ghost all = current@;
    let mut i: usize = 0;
    let ghost mut done: int = 0;
    assert(all.take(0) =~= Seq::<(S, K)>::empty());
    while i < current.len()
        invariant
            0 <= done <= all.len(),
            i <= current@.len(),
            current@.take(i as int) == retained(all.take(done), removed@),
            current@.skip(i as int) == all.skip(done),
        decreases current@.len() - i,
    {
        assert(current@.skip(i as int).len() == all.skip(done).len());
        assert(done < all.len());
        assert(current@.skip(i as int)[0] == all.skip(done)[0]);
        assert(all.take(done + 1).drop_last() =~= all.take(done));
        if contains_key(removed, &current[i].1) {
            let ghost before = current@;
            let _gone = current.remove(i);
            assert(current@.take(i as int) =~= before.take(i as int));
            assert(current@.skip(i as int) =~= before.skip(i as int).drop_first());
        } else {
            let ghost before = current@;
            assert(before.take(i + 1) =~= before.take(i as int).push(before[i as int]));
            assert(before.skip(i + 1) =~= before.skip(i as int).drop_first());
            i = i + 1;
        }
        assert(all.skip(done).drop_first() =~= all.skip(done + 1));
        proof {
            done = done + 1;
        }
    }
    assert(current@.skip(i as int).len() == 0);
    assert(done == all.len());
    assert(all.take(done) =~= all);
    assert(current@.take(i as int) =~= current@);
}

/// Moves the elements of `new` behind those of `curr`; `new` is left empty,
/// holding the allocation `curr` had.
pub fn swap_append<T>(curr: &mut Vec<T>, new: &mut Vec<T>)
    ensures
        final(curr)@ == old(curr)@ + old(new)@,
        final(new)@ == Seq::<T>::empty(),
{
    let ghost moved = curr@;
    let ghost tail = new@;
    let total = curr.len();
    let mut idx: usize = 0;
    while curr.len() > 0
        invariant
            moved.len() == total,
            moved == old(curr)@,
            tail == old(new)@,
            idx <= moved.len(),
            curr@ == moved.skip(idx as int),
            new@ == moved.take(idx as int) + tail,
        decreases curr@.len(),
    {
        assert(curr@.len() == moved.len() - idx);
        let element = curr.remove(0);
        assert(moved.take(idx as int) + tail == new@);
        new.insert(idx, element);
        assert(new@ =~= moved.take(idx + 1) + tail);
        assert(curr@ =~= moved.skip(idx + 1));
        idx = idx + 1;
    }
    assert(moved.take(idx as int) =~= moved);
    std::mem::swap(curr, new);
    assert(new@ =~= Seq::<T>::empty());
}

} // verus!
