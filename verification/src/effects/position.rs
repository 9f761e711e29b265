use std::time::Duration;
use vstd::prelude::*;

use crate::common::{ChannelCount, SampleRate};
use crate::const_source::ConstSource;
use crate::duration::std_duration;
use crate::fixed_source::FixedSource;

verus! {

/// The position `get_pos` reports after `counted` samples at `sample_rate`
/// samples per second and `channels` channels: whole seconds from the
/// count, and a nanosecond part from the count reduced first modulo the
/// sample rate and then modulo the channel count.
pub open spec fn position_of(counted: nat, sample_rate: nat, channels: nat) -> Duration {
    std_duration(
        (counted / sample_rate / channels) as u64,
        ((counted % sample_rate % channels) * 1_000_000_000 / sample_rate / channels) as u32,
    )
}

/// The nanosecond part `get_pos` computes fits and stays below one second.
proof fn lemma_rest_nanos(rest: int, sr: int, ch: int)
    requires
        0 <= rest < ch,
        ch <= 65_535,
        sr >= 1,
    ensures
        rest * 1_000_000_000 <= u64::MAX,
        rest * 1_000_000_000 / sr / ch < 1_000_000_000,
{
    let a = rest * 1_000_000_000;
    assert(a <= u64::MAX) by (nonlinear_arith)
        requires
            a == rest * 1_000_000_000,
            0 <= rest < ch,
            ch <= 65_535,
    ;
    assert(a / sr <= a) by (nonlinear_arith)
        requires
            a >= 0,
            sr >= 1,
    ;
    assert(a < ch * 1_000_000_000) by (nonlinear_arith)
        requires
            a == rest * 1_000_000_000,
            rest < ch,
    ;
    assert((a / sr) / ch < 1_000_000_000) by (nonlinear_arith)
        requires
            0 <= a / sr <= a,
            a < ch * 1_000_000_000,
            ch >= 1,
    ;
}

/// One more sample counted, staying at `u64::MAX` once it is reached.
pub open spec fn count_one(counted: nat) -> nat {
    if counted < u64::MAX {
        counted + 1
    } else {
        counted
    }
}

/// Counts the samples a source has played, to tell how far into it playback
/// is.
pub struct TrackPosition<S> {
    inner: S,
    samples_counted: u64,
    sample_rate: SampleRate,
    channels: ChannelCount,
}

impl<S> TrackPosition<S> {
    /// The wrapped source.
    pub closed spec fn source(&self) -> S {
        self.inner
    }

    /// The number of samples played so far.
    pub closed spec fn counted(&self) -> nat {
        self.samples_counted as nat
    }

    /// The sample rate the position is computed with.
    pub closed spec fn rate_used(&self) -> nat {
        self.sample_rate as nat
    }

    /// The channel count the position is computed with.
    pub closed spec fn chans_used(&self) -> nat {
        self.channels as nat
    }

    /// Tracks the position in `source`, whose sample rate and channel count
    /// (which do not change) are `sample_rate` and `channels`.
    pub fn new(source: S, sample_rate: SampleRate, channels: ChannelCount) -> (r: Self)
        requires
            sample_rate > 0,
            channels > 0,
        ensures
            r.source() == source,
            r.counted() == 0,
            r.rate_used() == sample_rate,
            r.chans_used() == channels,
    {
        TrackPosition { inner: source, samples_counted: 0, sample_rate, channels }
    }

    /// How far into the source playback is.
    pub fn get_pos(&self) -> (r: Duration)
        requires
            self.rate_used() > 0,
            self.chans_used() > 0,
        ensures
            r == position_of(self.counted(), self.rate_used(), self.chans_used()),
    {
        let sr = self.sample_rate as u64;
        let ch = self.channels as u64;
        let seconds = self.samples_counted / sr / ch;
        let rest_samples = self.samples_counted % sr % ch;
        proof {
            lemma_rest_nanos(rest_samples as int, sr as int, ch as int);
        }
        let rest_nanos = rest_samples * 1_000_000_000 / sr / ch;
        crate::duration::duration_new(seconds, rest_nanos as u32)
    }

    /// The wrapped source.
    pub fn inner(&self) -> (r: &S)
        ensures
            *r == self.source(),
    {
        &self.inner
    }

    /// Gives the wrapped source back.
    pub fn into_inner(self) -> (r: S)
        ensures
            r == self.source(),
    {
        self.inner
    }

    /// Counts one played sample.
    fn count(&mut self)
        ensures
            final(self).counted() == count_one(old(self).counted()),
            final(self).source() == old(self).source(),
            final(self).rate_used() == old(self).rate_used(),
            final(self).chans_used() == old(self).chans_used(),
    {
        if self.samples_counted < u64::MAX {
            self.samples_counted = self.samples_counted + 1;
        }
    }
}

impl<const SR: u32, const CH: u16, T, S: ConstSource<SR, CH, T>> ConstSource<SR, CH, T> for TrackPosition<
    S,
> {
    open spec fn wf(&self) -> bool {
        &&& self.source().wf()
        &&& self.rate_used() == SR
        &&& self.chans_used() == CH
    }

    open spec fn remaining(&self) -> Seq<T> {
        self.source().remaining()
    }

    open spec fn duration(&self) -> Option<nat> {
        self.source().duration()
    }

    open spec fn keeps_duration(&self) -> bool {
        self.source().keeps_duration()
    }

    fn next(&mut self) -> (r: Option<T>)
        ensures
            old(self).keeps_duration() ==> final(self).keeps_duration() && final(self).duration()
                == old(self).duration(),
            final(self).counted() == if r is Some {
                count_one(old(self).counted())
            } else {
                old(self).counted()
            },
    {
        match self.inner.next() {
            Some(sample) => {
                self.count();
                Some(sample)
            },
            None => None,
        }
    }

    fn total_duration_nanos(&self) -> (r: Option<u128>) {
        self.inner.total_duration_nanos()
    }
}

impl<T, S: FixedSource<T>> FixedSource<T> for TrackPosition<S> {
    open spec fn wf(&self) -> bool {
        &&& self.source().wf()
        &&& self.rate_used() == self.source().rate()
        &&& self.chans_used() == self.source().chans()
    }

    open spec fn remaining(&self) -> Seq<T> {
        self.source().remaining()
    }

    open spec fn duration(&self) -> Option<nat> {
        self.source().duration()
    }

    open spec fn rate(&self) -> nat {
        self.source().rate()
    }

    open spec fn chans(&self) -> nat {
        self.source().chans()
    }

    fn next(&mut self) -> (r: Option<T>)
        ensures
            final(self).rate() == old(self).rate(),
            final(self).chans() == old(self).chans(),
            final(self).counted() == if r is Some {
                count_one(old(self).counted())
            } else {
                old(self).counted()
            },
    {
        match self.inner.next() {
            Some(sample) => {
                self.count();
                Some(sample)
            },
            None => None,
        }
    }

    fn sample_rate(&self) -> (r: SampleRate) {
        self.inner.sample_rate()
    }

    fn channels(&self) -> (r: ChannelCount) {
        self.inner.channels()
    }

    fn total_duration_nanos(&self) -> (r: Option<u128>) {
        self.inner.total_duration_nanos()
    }
}

} // verus!
