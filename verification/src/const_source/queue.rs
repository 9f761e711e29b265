use std::time::Duration;
use vstd::prelude::*;

use crate::common::queue::{QueueHandleInner, QueueKey};
use crate::common::retained;
use crate::const_source::mixer::{keyed_durations, keyed_remaining, keyed_wf, lemma_keyed_wf_update};
use crate::const_source::queued::{lemma_flatten_pop, lemma_flatten_skip_end};
use crate::const_source::{pops, ConstSource};
use crate::duration::{
    capped, duration_from_opt, duration_of, fits_duration, opt_nat, sum_all_known,
    sum_all_known_step,
};

verus! {

/// The samples a queue holding `queued` yields from the source at
/// `position` on.
pub open spec fn queue_upcoming<const SR: u32, const CH: u16, T, S: ConstSource<SR, CH, T>>(
    queued: Seq<(S, QueueKey)>,
    position: nat,
) -> Seq<T> {
    if position < queued.len() {
        keyed_remaining::<SR, CH, T, S, QueueKey>(queued).skip(position as int).flatten()
    } else {
        Seq::empty()
    }
}

/// A queue that has played all its sources plays, once sources are added,
/// exactly the samples of the added sources, in order.
pub proof fn lemma_added_after_running_dry<const SR: u32, const CH: u16, T, S: ConstSource<
    SR,
    CH,
    T,
>>(queued: Seq<(S, QueueKey)>, added: Seq<(S, QueueKey)>)
    ensures
        queue_upcoming::<SR, CH, T, S>(queued + added, queued.len()) == keyed_remaining::<
            SR,
            CH,
            T,
            S,
            QueueKey,
        >(added).flatten(),
{
    if added.len() > 0 {
        assert(keyed_remaining::<SR, CH, T, S, QueueKey>(queued + added).skip(queued.len() as int)
            =~= keyed_remaining::<SR, CH, T, S, QueueKey>(added));
    } else {
        assert(keyed_remaining::<SR, CH, T, S, QueueKey>(added) =~= Seq::<Seq<T>>::empty());
        assert(Seq::<Seq<T>>::empty().flatten() =~= Seq::<T>::empty());
    }
}

/// Plays the sources added through its handle one after another; sources may
/// be added and removed while it plays.
pub struct Queue<const SR: u32, const CH: u16, S> {
    sources: Vec<(S, QueueKey)>,
    current: usize,
    frame_offset: u16,
}

impl<const SR: u32, const CH: u16, S> Queue<SR, CH, S> {
    /// The queued sources, with their keys.
    pub closed spec fn queued(&self) -> Seq<(S, QueueKey)> {
        self.sources@
    }

    /// Index of the source playing now.
    pub closed spec fn position(&self) -> nat {
        self.current as nat
    }

    /// Position inside the current frame.
    pub closed spec fn offset(&self) -> nat {
        self.frame_offset as nat
    }

    /// The queue's own invariant.
    pub closed spec fn wf(&self) -> bool {
        &&& CH > 0
        &&& self.frame_offset < CH
    }

    /// The samples the queue yields before it next runs out.
    pub open spec fn upcoming<T>(&self) -> Seq<T>
        where
            S: ConstSource<SR, CH, T>,
    {
        queue_upcoming::<SR, CH, T, S>(self.queued(), self.position())
    }

    /// An empty queue, and the state its handle shares with it.
    pub fn new() -> (r: (QueueHandleInner<S>, Self))
        requires
            CH > 0,
        ensures
            r.0.wf(),
            r.0.next_key_value() == 1,
            !r.0.changed(),
            r.0.share().additions() == Seq::<(S, QueueKey)>::empty(),
            r.0.share().removals() == Seq::<QueueKey>::empty(),
            r.1.wf(),
            r.1.queued() == Seq::<(S, QueueKey)>::empty(),
            r.1.position() == 0,
            r.1.offset() == 0,
    {
        (QueueHandleInner::new(), Queue { sources: Vec::new(), current: 0, frame_offset: 0 })
    }

    /// At the start of a frame, applies the changes the handle scheduled,
    /// if there are any, and clears the handle's flag. Sources therefore
    /// only join or leave at frame boundaries.
    pub fn update_if_due(&mut self, handle: &mut QueueHandleInner<S>)
        requires
            old(handle).wf(),
        ensures
            final(handle).wf(),
            final(self).offset() == old(self).offset(),
            final(self).position() == old(self).position(),
            final(handle).next_key_value() == old(handle).next_key_value(),
            if old(self).offset() == 0 && old(handle).changed() {
                &&& final(self).queued() == retained(
                    old(self).queued(),
                    old(handle).share().removals(),
                ) + old(handle).share().additions()
                &&& !final(handle).changed()
                &&& final(handle).share().additions() == Seq::<(S, QueueKey)>::empty()
                &&& final(handle).share().removals() == old(handle).share().removals()
            } else {
                &&& final(self).queued() == old(self).queued()
                &&& final(handle).changed() == old(handle).changed()
                &&& final(handle).share() == old(handle).share()
            },
    {
        if self.frame_offset == 0 && handle.sources_changed() {
            handle.apply_changes(&mut self.sources);
        }
    }

    /// The next sample of the source playing now; a source that has run out
    /// is left behind for the next one. `None` once every queued source has
    /// run out.
    pub fn next_sample<T>(&mut self) -> (r: Option<T>)
        where
            S: ConstSource<SR, CH, T>,
        requires
            old(self).wf(),
            keyed_wf::<SR, CH, T, S, QueueKey>(old(self).queued()),
        ensures
            final(self).wf(),
            keyed_wf::<SR, CH, T, S, QueueKey>(final(self).queued()),
            final(self).offset() == (old(self).offset() + 1) % (CH as nat),
            final(self).queued().len() == old(self).queued().len(),
            forall|i: int|
                0 <= i < old(self).queued().len() ==> (#[trigger] final(self).queued()[i]).1
                    == old(self).queued()[i].1,
            pops(old(self).upcoming(), final(self).upcoming(), r),
            final(self).position() >= old(self).position(),
            r is None ==> final(self).position() == if old(self).position() >= old(
                self,
            ).queued().len() {
                old(self).position()
            } else {
                old(self).queued().len()
            },
            r is Some ==> final(self).position() < final(self).queued().len(),
    {
        self.frame_offset = (self.frame_offset + 1) % CH;
        let ghost start = old(self).upcoming::<T>();
        let ghost keys = self.sources@;
        loop
            invariant
                self.wf(),
                keyed_wf::<SR, CH, T, S, QueueKey>(self.sources@),
                self.sources@.len() == keys.len(),
                keys == old(self).queued(),
                forall|i: int|
                    0 <= i < keys.len() ==> (#[trigger] self.sources@[i]).1 == keys[i].1,
                self.frame_offset as nat == (old(self).frame_offset as nat + 1) % (CH as nat),
                start == old(self).upcoming::<T>(),
                self.current >= self.sources@.len() ==> start.len() == 0,
                self.current < self.sources@.len() ==> start == self.upcoming::<T>(),
                self.current >= old(self).current,
                self.current == old(self).current || (old(self).current < self.sources@.len()
                    && self.current <= self.sources@.len()),
            decreases self.sources@.len() - self.current,
        {
            if self.current >= self.sources.len() {
                return None;
            }
            let ghost before = keyed_remaining::<SR, CH, T, S, QueueKey>(self.sources@);
            let ghost before_vec = self.sources@;
            let r = self.sources[self.current].0.next();
            proof {
                let after = keyed_remaining::<SR, CH, T, S, QueueKey>(self.sources@);
                assert(after =~= before.update(self.current as int, after[self.current as int]));
                assert(forall|j: int| 0 <= j < keys.len() && j != self.current ==> self.sources@[j] == before_vec[j]);
                lemma_flatten_pop(before, after, self.current as int, r);
                if r is None {
                    if self.current + 1 >= self.sources@.len() {
                        lemma_flatten_skip_end(after);
                        assert(after.skip(self.current + 1) =~= after.skip(after.len() as int));
                    }
                }
            }
            if r.is_some() {
                return r;
            }
            self.current = self.current + 1;
        }
    }

    /// One step of playback: applies the changes the handle scheduled when a
    /// frame starts (`update_if_due`), then takes the next sample
    /// (`next_sample`). Sources are kept by index, so a removal of a source
    /// before the one playing moves playback on to a later source.
    pub fn next_step<T>(&mut self, handle: &mut QueueHandleInner<S>) -> (r: Option<T>)
        where
            S: ConstSource<SR, CH, T>,
        requires
            old(self).wf(),
            old(handle).wf(),
            keyed_wf::<SR, CH, T, S, QueueKey>(old(self).queued()),
            keyed_wf::<SR, CH, T, S, QueueKey>(old(handle).share().additions()),
        ensures
            final(self).wf(),
            final(handle).wf(),
            final(handle).next_key_value() == old(handle).next_key_value(),
            final(self).offset() == (old(self).offset() + 1) % (CH as nat),
            keyed_wf::<SR, CH, T, S, QueueKey>(final(self).queued()),
            ({
                let due = old(self).offset() == 0 && old(handle).changed();
                let before = if due {
                    retained(old(self).queued(), old(handle).share().removals()) + old(
                        handle,
                    ).share().additions()
                } else {
                    old(self).queued()
                };
                &&& final(self).queued().len() == before.len()
                &&& final(self).position() >= old(self).position()
                &&& (r is None ==> final(self).position() == if old(self).position()
                    >= before.len() {
                    old(self).position()
                } else {
                    before.len()
                })
                &&& pops(
                    queue_upcoming::<SR, CH, T, S>(before, old(self).position()),
                    final(self).upcoming(),
                    r,
                )
                &&& (due ==> !final(handle).changed() && final(handle).share().additions()
                    == Seq::<(S, QueueKey)>::empty())
                &&& (!due ==> final(handle).share() == old(handle).share()
                    && final(handle).changed() == old(handle).changed())
            }),
    {
        let ghost queued = self.sources@;
        let ghost removals = handle.share().removals();
        let ghost additions = handle.share().additions();
        self.update_if_due(handle);
        proof {
            if old(self).offset() == 0 && old(handle).changed() {
                lemma_keyed_wf_update::<SR, CH, T, S, QueueKey>(queued, removals, additions);
            }
        }
        self.next_sample()
    }

    /// Sum of the durations of the queued sources in nanoseconds; `None`
    /// when one of them is unknown.
    pub fn total_duration_nanos<T>(&self) -> (r: Option<u128>)
        where
            S: ConstSource<SR, CH, T>,
        requires
            keyed_wf::<SR, CH, T, S, QueueKey>(self.queued()),
        ensures
            opt_nat(r) == capped(sum_all_known(keyed_durations::<SR, CH, T, S, QueueKey>(self.queued()))),
            fits_duration(opt_nat(r)),
    {
        let n = self.sources.len();
        let ghost ds = keyed_durations::<SR, CH, T, S, QueueKey>(self.sources@);
        let mut acc: Option<u128> = Some(0);
        let mut i: usize = 0;
        assert(ds.take(0) =~= Seq::<Option<nat>>::empty());
        while i < n
            invariant
                n == ds.len(),
                n == self.sources@.len(),
                ds == keyed_durations::<SR, CH, T, S, QueueKey>(self.sources@),
                keyed_wf::<SR, CH, T, S, QueueKey>(self.sources@),
                i <= n,
                opt_nat(acc) == capped(sum_all_known(ds.take(i as int))),
                fits_duration(opt_nat(acc)),
            decreases n - i,
        {
            let d = self.sources[i].0.total_duration_nanos();
            acc = sum_all_known_step(acc, d, Ghost(ds.take(i as int)));
            assert(ds.take(i as int).push(ds[i as int]) =~= ds.take(i + 1));
            i = i + 1;
        }
        assert(ds.take(n as int) =~= ds);
        acc
    }

    /// Sum of the durations of the queued sources; `None` when one of them
    /// is unknown.
    pub fn total_duration<T>(&self) -> (r: Option<Duration>)
        where
            S: ConstSource<SR, CH, T>,
        requires
            keyed_wf::<SR, CH, T, S, QueueKey>(self.queued()),
        ensures
            r == duration_of(capped(sum_all_known(keyed_durations::<SR, CH, T, S, QueueKey>(self.queued())))),
    {
        duration_from_opt(self.total_duration_nanos::<T>())
    }
}

} // verus!
