use vstd::prelude::*;
use vstd::set_lib::{lemma_int_range, set_int_range};

use crate::common::{retained, SourceKey, SourceShare};

verus! {

/// Identifies a source added to a queue.
#[derive(Debug, Clone, Copy, PartialEq, Eq, Structural)]
pub struct QueueKey(usize);

impl QueueKey {
    /// The number behind the key; never zero.
    pub closed spec fn value(&self) -> nat {
        self.0 as nat
    }

    /// Keys are equal exactly when their numbers are.
    pub proof fn lemma_value_injective(a: QueueKey, b: QueueKey)
        ensures
            (a == b) <==> (a.value() == b.value()),
    {
    }
}

impl SourceKey for QueueKey {
    fn same_key(&self, other: &Self) -> (r: bool) {
        self.0 == other.0
    }
}

/// The part of a queue that its handle and the audio thread share: the
/// counter that hands out keys, whether changes wait to be applied, and the
/// changes themselves.
pub struct QueueHandleInner<S> {
    next_key: usize,
    sources_changed: bool,
    source_share: SourceShare<S, QueueKey>,
}

impl<S> QueueHandleInner<S> {
    /// The number of the key handed out next.
    pub closed spec fn next_key_value(&self) -> nat {
        self.next_key as nat
    }

    /// The numbers of every key handed out so far: 1 up to, and not
    /// including, the next one.
    pub open spec fn issued(&self) -> Set<int> {
        set_int_range(1, self.next_key_value() as int)
    }

    /// As many keys were handed out as there are numbers below the next
    /// one, starting at 1.
    pub proof fn lemma_issued_len(&self)
        requires
            self.wf(),
        ensures
            self.issued().finite(),
            self.issued().len() == self.next_key_value() - 1,
    {
        lemma_int_range(1, self.next_key_value() as int);
    }

    /// Whether changes wait to be applied by the audio thread.
    pub closed spec fn changed(&self) -> bool {
        self.sources_changed
    }

    /// The changes waiting to be applied.
    pub closed spec fn share(&self) -> SourceShare<S, QueueKey> {
        self.source_share
    }

    /// Every key handed out so far is below the next one, and none is zero.
    pub closed spec fn wf(&self) -> bool {
        &&& self.next_key >= 1
        &&& self.source_share.wf()
        &&& forall|i: int|
            0 <= i < self.source_share.additions().len() ==> 1 <= (
            #[trigger] self.source_share.additions()[i]).1.value() < self.next_key
    }

    /// A handle state with nothing added yet; the first key is 1.
    pub fn new() -> (r: Self)
        ensures
            r.wf(),
            r.next_key_value() == 1,
            r.issued() == Set::<int>::empty(),
            !r.changed(),
            r.share().additions() == Seq::<(S, QueueKey)>::empty(),
            r.share().removals() == Seq::<QueueKey>::empty(),
    {
        let r = Self { next_key: 1, sources_changed: false, source_share: SourceShare::new() };
        assert(r.issued() =~= Set::<int>::empty());
        r
    }

    /// Hands out a fresh key: the counter's value, which then goes up by one.
    pub fn new_key(&mut self) -> (r: QueueKey)
        requires
            old(self).wf(),
            old(self).next_key_value() < usize::MAX,
        ensures
            final(self).wf(),
            r.value() == old(self).next_key_value(),
            final(self).next_key_value() == old(self).next_key_value() + 1,
            !old(self).issued().contains(r.value() as int),
            final(self).issued() == old(self).issued().insert(r.value() as int),
            r.value() == old(self).issued().len() + 1,
            final(self).changed() == old(self).changed(),
            final(self).share() == old(self).share(),
    {
        proof {
            self.lemma_issued_len();
        }
        let key = self.next_key;
        self.next_key = self.next_key + 1;
        assert(self.issued() =~= old(self).issued().insert(key as int));
        QueueKey(key)
    }

    /// Schedules `source` to be added under a fresh key and flags the change.
    pub fn add_unchecked(&mut self, source: S) -> (r: QueueKey)
        requires
            old(self).wf(),
            old(self).next_key_value() < usize::MAX,
        ensures
            final(self).wf(),
            r.value() == old(self).next_key_value(),
            final(self).next_key_value() == old(self).next_key_value() + 1,
            !old(self).issued().contains(r.value() as int),
            final(self).issued() == old(self).issued().insert(r.value() as int),
            r.value() == old(self).issued().len() + 1,
            forall|i: int|
                0 <= i < old(self).share().additions().len() ==> (
                #[trigger] old(self).share().additions()[i]).1 != r,
            final(self).changed(),
            final(self).share().additions() == old(self).share().additions().push((source, r)),
            final(self).share().removals() == old(self).share().removals(),
    {
        let key = self.new_key();
        self.source_share.schedule_addition(source, key);
        self.sources_changed = true;
        key
    }

    /// Whether another key can be handed out.
    pub fn can_add(&self) -> (r: bool)
        ensures
            r == (self.next_key_value() < usize::MAX),
    {
        self.next_key < usize::MAX
    }

    /// Whether changes wait to be applied.
    pub fn sources_changed(&self) -> (r: bool)
        ensures
            r == self.changed(),
    {
        self.sources_changed
    }

    /// Applies the waiting changes to the playing sources `current` and
    /// clears the flag.
    pub fn apply_changes(&mut self, current: &mut Vec<(S, QueueKey)>)
        requires
            old(self).wf(),
        ensures
            final(self).wf(),
            final(self).next_key_value() == old(self).next_key_value(),
            !final(self).changed(),
            final(current)@ == retained(old(current)@, old(self).share().removals()) + old(
                self,
            ).share().additions(),
            final(self).share().additions() == Seq::<(S, QueueKey)>::empty(),
            final(self).share().removals() == old(self).share().removals(),
    {
        self.source_share.update(current);
        // the flag is cleared while the changes are held, so a change made
        // meanwhile can not be lost
        self.sources_changed = false;
    }

    /// Schedules the source added under `key` for removal.
    pub fn remove(&mut self, key: QueueKey)
        requires
            old(self).wf(),
        ensures
            final(self).wf(),
            final(self).next_key_value() == old(self).next_key_value(),
            final(self).changed() == old(self).changed(),
            final(self).share().additions() == old(self).share().additions(),
            final(self).share().removals() == old(self).share().removals().push(key),
    {
        self.source_share.schedule_removal(key)
    }
}

} // verus!
