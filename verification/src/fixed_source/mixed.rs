use std::time::Duration;
use vstd::prelude::*;

use crate::common::{ChannelCount, SampleRate};
use crate::const_source::mixed::{all_advanced, any_present, present_heads};
use crate::duration::{
    duration_from_opt, duration_of, fits_duration, max_all_known, max_all_known_step, opt_nat,
};
use crate::fixed_source::list_of_sources::FixedListOfSources;

verus! {

/// Whether every source from index 1 up to (not including) `end` has the
/// parameters of the first one.
pub open spec fn matches_first_up_to(params: Seq<(nat, nat)>, end: int) -> bool {
    forall|j: int| 1 <= j < end ==> #[trigger] params[j] == params[0]
}

/// The index of the first source whose sample rate or channel count differs
/// from those of the first source, if there is one.
pub open spec fn first_mismatch(params: Seq<(nat, nat)>) -> Option<int> {
    if exists|i: int| 1 <= i < params.len() && #[trigger] params[i] != params[0] {
        Some(
            choose|i: int|
                1 <= i < params.len() && #[trigger] params[i] != params[0] && matches_first_up_to(
                    params,
                    i,
                ),
        )
    } else {
        None
    }
}

/// The sources of a list to be mixed do not all share a sample rate and a
/// channel count.
#[derive(Debug, Clone, Copy, PartialEq, Eq, Structural)]
pub struct ParamsMismatch {
    /// The position of the first differing source among the sources after
    /// the first one (0 is the second source).
    pub index_of_first_mismatch: usize,
    pub sample_rate_left: SampleRate,
    pub channel_count_left: ChannelCount,
    pub sample_rate_right: SampleRate,
    pub channel_count_right: ChannelCount,
}

/// There is a first differing source exactly when some source differs, and
/// it is the one `first_mismatch` names.
proof fn lemma_first_mismatch(params: Seq<(nat, nat)>, i: int)
    requires
        1 <= i < params.len(),
        params[i] != params[0],
        matches_first_up_to(params, i),
    ensures
        first_mismatch(params) == Some(i),
{
    let k = choose|k: int|
        1 <= k < params.len() && #[trigger] params[k] != params[0] && matches_first_up_to(
            params,
            k,
        );
    assert(1 <= i < params.len() && params[i] != params[0] && matches_first_up_to(params, i));
    if k < i {
        assert(params[k] == params[0]);
    } else if k > i {
        assert(params[i] == params[0]);
    }
}

/// Checks that all sources of a list share the sample rate and channel
/// count of the first one; the error reports the first one that does not.
pub fn check_params_for_list<T, L: FixedListOfSources<T>>(list: &L) -> (r: Result<(), ParamsMismatch>)
    requires
        list.wf(),
    ensures
        list.params().len() == list.sources().len(),
        r is Ok <==> first_mismatch(list.params()) is None,
        r matches Err(e) ==> first_mismatch(list.params()) matches Some(i) && {
            &&& e.index_of_first_mismatch == i - 1
            &&& e.sample_rate_left == list.params()[0].0
            &&& e.channel_count_left == list.params()[0].1
            &&& e.sample_rate_right == list.params()[i].0
            &&& e.channel_count_right == list.params()[i].1
        },
{
    let n = list.len();
    if n == 0 {
        return Ok(());
    }
    let sample_rate = list.sample_rate(0);
    let channels = list.channels(0);
    let mut i: usize = 1;
    while i < n
        invariant
            list.wf(),
            n == list.sources().len(),
            n == list.params().len(),
            1 <= i <= n,
            sample_rate == list.params()[0].0,
            channels == list.params()[0].1,
            matches_first_up_to(list.params(), i as int),
        decreases n - i,
    {
        let sr = list.sample_rate(i);
        let ch = list.channels(i);
        if sr != sample_rate || ch != channels {
            proof {
                lemma_first_mismatch(list.params(), i as int);
            }
            return Err(
                ParamsMismatch {
                    index_of_first_mismatch: i - 1,
                    sample_rate_left: sample_rate,
                    channel_count_left: channels,
                    sample_rate_right: sr,
                    channel_count_right: ch,
                },
            );
        }
        i = i + 1;
    }
    Ok(())
}

/// Plays the fixed sources of a list, which share sample rate and channel
/// count, at the same time.
///
/// Each step takes the next sample of every source that still has one; the
/// samples of one step are combined (averaged) by the caller.
pub struct FixedMixed<L> {
    inner: L,
    sample_rate: SampleRate,
    channels: ChannelCount,
}

impl<L> FixedMixed<L> {
    /// The list being mixed.
    pub closed spec fn list(&self) -> L {
        self.inner
    }

    /// The sample rate all sources share.
    pub closed spec fn rate(&self) -> nat {
        self.sample_rate as nat
    }

    /// The channel count all sources share.
    pub closed spec fn chans(&self) -> nat {
        self.channels as nat
    }

    /// The invariant: the list is well formed, and every source plays at the
    /// mix's sample rate and channel count.
    pub open spec fn wf<T>(&self) -> bool where L: FixedListOfSources<T> {
        &&& self.list().wf()
        &&& self.rate() > 0
        &&& self.chans() > 0
        &&& forall|i: int|
            0 <= i < self.list().params().len() ==> #[trigger] self.list().params()[i] == (
                self.rate(),
                self.chans(),
            )
    }

    /// The samples of the next step, one per source that still has one, in
    /// source order; `None` once every source has run out.
    pub fn next_samples<T>(&mut self) -> (r: Option<Vec<T>>)
        where
            L: FixedListOfSources<T>,
        requires
            old(self).wf::<T>(),
        ensures
            final(self).wf::<T>(),
            final(self).rate() == old(self).rate(),
            final(self).chans() == old(self).chans(),
            all_advanced(old(self).list().sources(), final(self).list().sources()),
            any_present(old(self).list().sources()) <==> r is Some,
            r matches Some(v) ==> v@ == present_heads(old(self).list().sources()),
    {
        let n = self.inner.len();
        let ghost start = self.inner.sources();
        let ghost params = self.inner.params();
        let mut out: Vec<T> = Vec::new();
        let mut i: usize = 0;
        assert(start.take(0) =~= Seq::<Seq<T>>::empty());
        while i < n
            invariant
                self.wf::<T>(),
                self.rate() == old(self).rate(),
                self.chans() == old(self).chans(),
                self.inner.params() == params,
                n == self.inner.sources().len(),
                start == old(self).list().sources(),
                start.len() == n,
                i <= n,
                out@ == present_heads(start.take(i as int)),
                forall|j: int| i <= j < n ==> #[trigger] self.inner.sources()[j] == start[j],
                forall|j: int|
                    0 <= j < i && start[j].len() > 0 ==> #[trigger] self.inner.sources()[j]
                        == start[j].drop_first(),
                (out@.len() > 0) <==> (exists|j: int| 0 <= j < i && #[trigger] start[j].len() > 0),
            decreases n - i,
        {
            let ghost before = self.inner.sources();
            let r = self.inner.next(i);
            assert(start.take(i + 1).drop_last() =~= start.take(i as int));
            match r {
                Some(s) => {
                    out.push(s);
                },
                None => {},
            }
            assert(forall|j: int| 0 <= j < n && j != i ==> self.inner.sources()[j] == before[j]);
            i = i + 1;
        }
        assert(start.take(n as int) =~= start);
        if out.len() == 0 {
            None
        } else {
            Some(out)
        }
    }

    /// Longest of the durations of the sources in nanoseconds, when every
    /// one of them is known.
    pub fn total_duration_nanos<T>(&self) -> (r: Option<u128>)
        where
            L: FixedListOfSources<T>,
        requires
            self.wf::<T>(),
        ensures
            opt_nat(r) == max_all_known(self.list().durations()),
            fits_duration(opt_nat(r)),
    {
        let n = self.inner.len();
        let ghost ds = self.inner.durations();
        let mut acc: Option<u128> = Some(0);
        let mut i: usize = 0;
        assert(ds.take(0) =~= Seq::<Option<nat>>::empty());
        while i < n
            invariant
                n == ds.len(),
                n == self.inner.sources().len(),
                ds == self.inner.durations(),
                self.inner.wf(),
                i <= n,
                opt_nat(acc) == max_all_known(ds.take(i as int)),
                fits_duration(opt_nat(acc)),
            decreases n - i,
        {
            let d = self.inner.total_duration(i);
            acc = max_all_known_step(acc, d, Ghost(ds.take(i as int)));
            assert(ds.take(i as int).push(ds[i as int]) =~= ds.take(i + 1));
            i = i + 1;
        }
        assert(ds.take(n as int) =~= ds);
        acc
    }

    /// Longest of the durations of the sources, when every one of them is
    /// known.
    pub fn total_duration<T>(&self) -> (r: Option<Duration>)
        where
            L: FixedListOfSources<T>,
        requires
            self.wf::<T>(),
        ensures
            r == duration_of(max_all_known(self.list().durations())),
    {
        duration_from_opt(self.total_duration_nanos::<T>())
    }

    /// The sample rate all sources share.
    pub fn sample_rate(&self) -> (r: SampleRate)
        ensures
            r == self.rate(),
    {
        self.sample_rate
    }

    /// The channel count all sources share.
    pub fn channels(&self) -> (r: ChannelCount)
        ensures
            r == self.chans(),
    {
        self.channels
    }
}

/// Mixes a list of fixed sources that share sample rate and channel count.
pub trait IntoMixed<T>: FixedListOfSources<T> {
    /// Mixes the sources of this list; fails, reporting the first source
    /// that differs, when they do not all have the sample rate and channel
    /// count of the first one.
    fn try_into_mixed(self) -> (r: Result<FixedMixed<Self>, ParamsMismatch>)
        requires
            self.wf(),
            self.sources().len() > 0,
        ensures
            r is Ok <==> first_mismatch(self.params()) is None,
            r matches Ok(m) ==> {
                &&& m.wf::<T>()
                &&& m.list() == self
                &&& m.rate() == self.params()[0].0
                &&& m.chans() == self.params()[0].1
            },
            r matches Err(e) ==> first_mismatch(self.params()) matches Some(i) && {
                &&& e.index_of_first_mismatch == i - 1
                &&& e.sample_rate_left == self.params()[0].0
                &&& e.channel_count_left == self.params()[0].1
                &&& e.sample_rate_right == self.params()[i].0
                &&& e.channel_count_right == self.params()[i].1
            },
    ;
}

impl<T, L: FixedListOfSources<T>> IntoMixed<T> for L {
    fn try_into_mixed(self) -> (r: Result<FixedMixed<Self>, ParamsMismatch>) {
        match check_params_for_list(&self) {
            Err(e) => Err(e),
            Ok(()) => {
                let sample_rate = self.sample_rate(0);
                let channels = self.channels(0);
                let ghost params = self.params();
                assert forall|i: int| 0 <= i < params.len() implies #[trigger] params[i] == (
                    sample_rate as nat,
                    channels as nat,
                ) by {
                    if i > 0 && params[i] != params[0] {
                        assert(exists|k: int| 1 <= k < params.len() && #[trigger] params[k]
                            != params[0]);
                    }
                }
                Ok(FixedMixed { inner: self, sample_rate, channels })
            },
        }
    }
}

} // verus!
