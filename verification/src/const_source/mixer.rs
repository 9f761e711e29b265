// Why this strange dance with vectors? Nothing that produces samples may
// allocate or free memory: that usually takes a lock, which may block the
// audio thread long enough that it misses its deadline. So memory is
// allocated on the thread that adds sources, and the audio thread only moves
// the prepared sources over.

use std::time::Duration;
use vstd::prelude::*;

use crate::common::mixer::{MixerHandleInner, MixerKey};
use crate::common::{retained, ChannelCount, SampleRate};
use crate::const_source::mixed::{all_advanced, any_present, present_heads};
use crate::const_source::ConstSource;
use crate::duration::{
    duration_from_opt, duration_of, fits_duration, max_all_known, max_all_known_step, opt_nat,
};

verus! {

/// The samples each source of a keyed list still yields.
pub open spec fn keyed_remaining<const SR: u32, const CH: u16, T, S: ConstSource<SR, CH, T>, K>(
    v: Seq<(S, K)>,
) -> Seq<Seq<T>> {
    Seq::new(v.len(), |i: int| v[i].0.remaining())
}

/// The durations the sources of a keyed list report.
pub open spec fn keyed_durations<const SR: u32, const CH: u16, T, S: ConstSource<SR, CH, T>, K>(
    v: Seq<(S, K)>,
) -> Seq<Option<nat>> {
    Seq::new(v.len(), |i: int| v[i].0.duration())
}

/// Every source of a keyed list is well formed.
pub open spec fn keyed_wf<const SR: u32, const CH: u16, T, S: ConstSource<SR, CH, T>, K>(
    v: Seq<(S, K)>,
) -> bool {
    forall|i: int| 0 <= i < v.len() ==> #[trigger] v[i].0.wf()
}

/// Applying a handle's changes to well formed sources gives well formed
/// sources.
pub(crate) proof fn lemma_keyed_wf_update<const SR: u32, const CH: u16, T, S: ConstSource<SR, CH, T>, K>(
    current: Seq<(S, K)>,
    removed: Seq<K>,
    added: Seq<(S, K)>,
)
    requires
        keyed_wf::<SR, CH, T, S, K>(current),
        keyed_wf::<SR, CH, T, S, K>(added),
    ensures
        keyed_wf::<SR, CH, T, S, K>(retained(current, removed) + added),
    decreases current.len(),
{
    if current.len() > 0 {
        lemma_keyed_wf_update::<SR, CH, T, S, K>(current.drop_last(), removed, Seq::empty());
        assert(retained(current.drop_last(), removed) + Seq::<(S, K)>::empty()
            =~= retained(current.drop_last(), removed));
        let kept = retained(current, removed);
        assert(keyed_wf::<SR, CH, T, S, K>(kept)) by {
            let prev = retained(current.drop_last(), removed);
            if !removed.contains(current.last().1) {
                assert forall|i: int| 0 <= i < prev.push(current.last()).len() implies (
                #[trigger] prev.push(current.last())[i]).0.wf() by {
                    if i < prev.len() {
                        assert(prev.push(current.last())[i] == prev[i]);
                    }
                }
            }
        }
        assert forall|i: int| 0 <= i < (kept + added).len() implies (
        #[trigger] (kept + added)[i]).0.wf() by {
            if i < kept.len() {
                assert((kept + added)[i] == kept[i]);
            } else {
                assert((kept + added)[i] == added[i - kept.len()]);
            }
        }
    } else {
        assert(retained(current, removed) =~= Seq::<(S, K)>::empty());
        assert(retained(current, removed) + added =~= added);
    }
}

/// Asks every source of a keyed list for its next sample and collects the
/// samples that came, in list order; `None` when no source had one.
pub(crate) fn next_present_keyed<const SR: u32, const CH: u16, T, S: ConstSource<SR, CH, T>, K>(
    v: &mut Vec<(S, K)>,
) -> (r: Option<Vec<T>>)
    requires
        keyed_wf::<SR, CH, T, S, K>(old(v)@),
    ensures
        keyed_wf::<SR, CH, T, S, K>(final(v)@),
        final(v)@.len() == old(v)@.len(),
        forall|i: int| 0 <= i < old(v)@.len() ==> (#[trigger] final(v)@[i]).1 == old(v)@[i].1,
        all_advanced(
            keyed_remaining::<SR, CH, T, S, K>(old(v)@),
            keyed_remaining::<SR, CH, T, S, K>(final(v)@),
        ),
        any_present(keyed_remaining::<SR, CH, T, S, K>(old(v)@)) <==> r is Some,
        r matches Some(out) ==> out@ == present_heads(keyed_remaining::<SR, CH, T, S, K>(old(v)@)),
{
    let n = v.len();
    let ghost start = keyed_remaining::<SR, CH, T, S, K>(v@);
    let ghost keys = v@;
    let mut out: Vec<T> = Vec::new();
    let mut i: usize = 0;
    assert(start.take(0) =~= Seq::<Seq<T>>::empty());
    while i < n
        invariant
            keyed_wf::<SR, CH, T, S, K>(v@),
            n == v@.len(),
            keys == old(v)@,
            start == keyed_remaining::<SR, CH, T, S, K>(old(v)@),
            start.len() == n,
            i <= n,
            out@ == present_heads(start.take(i as int)),
            forall|j: int| 0 <= j < n ==> (#[trigger] v@[j]).1 == keys[j].1,
            forall|j: int| i <= j < n ==> #[trigger] v@[j].0.remaining() == start[j],
            forall|j: int|
                0 <= j < i && start[j].len() > 0 ==> #[trigger] v@[j].0.remaining()
                    == start[j].drop_first(),
            (out@.len() > 0) <==> (exists|j: int| 0 <= j < i && #[trigger] start[j].len() > 0),
        decreases n - i,
    {
        let ghost before = v@;
        let r = v[i].0.next();
        assert(start.take(i + 1).drop_last() =~= start.take(i as int));
        match r {
            Some(s) => {
                out.push(s);
            },
            None => {},
        }
        assert(forall|j: int| 0 <= j < n && j != i ==> v@[j] == before[j]);
        i = i + 1;
    }
    assert(start.take(n as int) =~= start);
    assert(keyed_remaining::<SR, CH, T, S, K>(v@).len() == n);
    if out.len() == 0 {
        None
    } else {
        Some(out)
    }
}

/// Plays the sources added through its handle at the same time; sources may
/// be added and removed while it plays.
///
/// Each step takes the next sample of every source that still has one; the
/// samples of one step are combined (averaged) by the caller.
pub struct Mixer<const SR: u32, const CH: u16, S> {
    sources: Vec<(S, MixerKey)>,
    frame_offset: u16,
}

impl<const SR: u32, const CH: u16, S> Mixer<SR, CH, S> {
    /// The sources playing now, with their keys.
    pub closed spec fn playing(&self) -> Seq<(S, MixerKey)> {
        self.sources@
    }

    /// Position inside the current frame.
    pub closed spec fn offset(&self) -> nat {
        self.frame_offset as nat
    }

    /// The mixer's own invariant.
    pub closed spec fn wf(&self) -> bool {
        &&& CH > 0
        &&& self.frame_offset < CH
    }

    /// A mixer that plays nothing yet, and the state its handle shares with it.
    pub fn new() -> (r: (MixerHandleInner<S>, Self))
        requires
            CH > 0,
        ensures
            r.0.wf(),
            r.0.next_key_value() == 1,
            !r.0.changed(),
            r.0.share().additions() == Seq::<(S, MixerKey)>::empty(),
            r.0.share().removals() == Seq::<MixerKey>::empty(),
            r.1.wf(),
            r.1.playing() == Seq::<(S, MixerKey)>::empty(),
            r.1.offset() == 0,
    {
        (MixerHandleInner::new(), Mixer { sources: Vec::new(), frame_offset: 0 })
    }

    /// At the start of a frame, applies the changes the handle scheduled,
    /// if there are any, and clears the handle's flag. Sources therefore
    /// only join or leave at frame boundaries.
    pub fn update_if_due(&mut self, handle: &mut MixerHandleInner<S>)
        requires
            old(handle).wf(),
        ensures
            final(handle).wf(),
            final(self).offset() == old(self).offset(),
            final(handle).next_key_value() == old(handle).next_key_value(),
            if old(self).offset() == 0 && old(handle).changed() {
                &&& final(self).playing() == retained(
                    old(self).playing(),
                    old(handle).share().removals(),
                ) + old(handle).share().additions()
                &&& !final(handle).changed()
                &&& final(handle).share().additions() == Seq::<(S, MixerKey)>::empty()
                &&& final(handle).share().removals() == old(handle).share().removals()
            } else {
                &&& final(self).playing() == old(self).playing()
                &&& final(handle).changed() == old(handle).changed()
                &&& final(handle).share() == old(handle).share()
            },
    {
        if self.frame_offset == 0 && handle.sources_changed() {
            handle.apply_changes(&mut self.sources);
        }
    }

    /// The samples of the next step, one per playing source that still has
    /// one, in the order the sources were added; `None` when none has one.
    pub fn next_samples<T>(&mut self) -> (r: Option<Vec<T>>)
        where
            S: ConstSource<SR, CH, T>,
        requires
            old(self).wf(),
            keyed_wf::<SR, CH, T, S, MixerKey>(old(self).playing()),
        ensures
            final(self).wf(),
            keyed_wf::<SR, CH, T, S, MixerKey>(final(self).playing()),
            final(self).offset() == (old(self).offset() + 1) % (CH as nat),
            final(self).playing().len() == old(self).playing().len(),
            all_advanced(
                keyed_remaining::<SR, CH, T, S, MixerKey>(old(self).playing()),
                keyed_remaining::<SR, CH, T, S, MixerKey>(final(self).playing()),
            ),
            any_present(keyed_remaining::<SR, CH, T, S, MixerKey>(old(self).playing())) <==> r is Some,
            r matches Some(v) ==> v@ == present_heads(
                keyed_remaining::<SR, CH, T, S, MixerKey>(old(self).playing()),
            ),
    {
        self.frame_offset = (self.frame_offset + 1) % CH;
        next_present_keyed::<SR, CH, T, S, MixerKey>(&mut self.sources)
    }

    /// One step of playback: applies the changes the handle scheduled when a
    /// frame starts (`update_if_due`), then takes the samples of the step
    /// (`next_samples`).
    pub fn next_step<T>(&mut self, handle: &mut MixerHandleInner<S>) -> (r: Option<Vec<T>>)
        where
            S: ConstSource<SR, CH, T>,
        requires
            old(self).wf(),
            old(handle).wf(),
            keyed_wf::<SR, CH, T, S, MixerKey>(old(self).playing()),
            keyed_wf::<SR, CH, T, S, MixerKey>(old(handle).share().additions()),
        ensures
            final(self).wf(),
            final(handle).wf(),
            final(handle).next_key_value() == old(handle).next_key_value(),
            final(self).offset() == (old(self).offset() + 1) % (CH as nat),
            ({
                let due = old(self).offset() == 0 && old(handle).changed();
                let before = if due {
                    retained(old(self).playing(), old(handle).share().removals()) + old(
                        handle,
                    ).share().additions()
                } else {
                    old(self).playing()
                };
                &&& keyed_wf::<SR, CH, T, S, MixerKey>(final(self).playing())
                &&& final(self).playing().len() == before.len()
                &&& all_advanced(
                    keyed_remaining::<SR, CH, T, S, MixerKey>(before),
                    keyed_remaining::<SR, CH, T, S, MixerKey>(final(self).playing()),
                )
                &&& (any_present(keyed_remaining::<SR, CH, T, S, MixerKey>(before)) <==> r is Some)
                &&& (r matches Some(v) ==> v@ == present_heads(
                    keyed_remaining::<SR, CH, T, S, MixerKey>(before),
                ))
                &&& (due ==> !final(handle).changed() && final(handle).share().additions()
                    == Seq::<(S, MixerKey)>::empty())
                &&& (!due ==> final(handle).share() == old(handle).share()
                    && final(handle).changed() == old(handle).changed())
            }),
    {
        let ghost playing = self.sources@;
        let ghost removals = handle.share().removals();
        let ghost additions = handle.share().additions();
        self.update_if_due(handle);
        proof {
            if old(self).offset() == 0 && old(handle).changed() {
                lemma_keyed_wf_update::<SR, CH, T, S, MixerKey>(playing, removals, additions);
            }
        }
        self.next_samples()
    }

    /// Longest duration of the playing sources in nanoseconds; `None` when
    /// one of them is unknown.
    pub fn total_duration_nanos<T>(&self) -> (r: Option<u128>)
        where
            S: ConstSource<SR, CH, T>,
        requires
            keyed_wf::<SR, CH, T, S, MixerKey>(self.playing()),
        ensures
            opt_nat(r) == max_all_known(keyed_durations::<SR, CH, T, S, MixerKey>(self.playing())),
            fits_duration(opt_nat(r)),
    {
        let n = self.sources.len();
        let ghost ds = keyed_durations::<SR, CH, T, S, MixerKey>(self.sources@);
        let mut acc: Option<u128> = Some(0);
        let mut i: usize = 0;
        assert(ds.take(0) =~= Seq::<Option<nat>>::empty());
        while i < n
            invariant
                n == ds.len(),
                n == self.sources@.len(),
                ds == keyed_durations::<SR, CH, T, S, MixerKey>(self.sources@),
                keyed_wf::<SR, CH, T, S, MixerKey>(self.sources@),
                i <= n,
                opt_nat(acc) == max_all_known(ds.take(i as int)),
                fits_duration(opt_nat(acc)),
            decreases n - i,
        {
            let d = self.sources[i].0.total_duration_nanos();
            acc = max_all_known_step(acc, d, Ghost(ds.take(i as int)));
            assert(ds.take(i as int).push(ds[i as int]) =~= ds.take(i + 1));
            i = i + 1;
        }
        assert(ds.take(n as int) =~= ds);
        acc
    }

    /// Longest duration of the playing sources; `None` when one of them is
    /// unknown.
    pub fn total_duration<T>(&self) -> (r: Option<Duration>)
        where
            S: ConstSource<SR, CH, T>,
        requires
            keyed_wf::<SR, CH, T, S, MixerKey>(self.playing()),
        ensures
            r == duration_of(max_all_known(keyed_durations::<SR, CH, T, S, MixerKey>(self.playing()))),
    {
        duration_from_opt(self.total_duration_nanos::<T>())
    }
}

/// A source can not join a mixer whose sample rate or channel count differs.
#[derive(Debug, Clone, Copy, PartialEq, Eq, Structural)]
pub struct ParamsMismatch {
    pub sample_rate_mixer: SampleRate,
    pub channel_count_mixer: ChannelCount,
    pub sample_rate_new: SampleRate,
    pub channel_count_new: ChannelCount,
}

} // verus!
