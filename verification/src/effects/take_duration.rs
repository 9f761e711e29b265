use vstd::prelude::*;

use crate::common::{ChannelCount, SampleRate};
use crate::const_source::ConstSource;
use crate::effects::take_samples::{lemma_take_at_most_pop, take_at_most};
use crate::fixed_source::FixedSource;

verus! {

/// Plays a source for a given span of time, counted in samples at the
/// source's sample rate and rounded up, then ends. The duration it reports is
/// the one of the source it wraps.
pub struct TakeDuration<S> {
    inner: S,
    left: usize,
}

impl<S> TakeDuration<S> {
    /// The wrapped source.
    pub closed spec fn source(&self) -> S {
        self.inner
    }

    /// How many samples may still be played.
    pub closed spec fn allowance(&self) -> nat {
        self.left as nat
    }

    /// Plays at most `samples` samples of `source`: the number of samples
    /// the span of time holds at the source's sample rate, rounded up.
    pub fn from_samples(source: S, samples: usize) -> (r: Self)
        ensures
            r.source() == source,
            r.allowance() == samples,
    {
        TakeDuration { inner: source, left: samples }
    }

    /// The wrapped source.
    pub fn inner(&self) -> (r: &S)
        ensures
            *r == self.source(),
    {
        &self.inner
    }

    /// Gives the wrapped source back.
    pub fn into_inner(self) -> (r: S)
        ensures
            r == self.source(),
    {
        self.inner
    }
}

impl<const SR: u32, const CH: u16, T, S: ConstSource<SR, CH, T>> ConstSource<SR, CH, T> for TakeDuration<
    S,
> {
    open spec fn wf(&self) -> bool {
        self.source().wf()
    }

    open spec fn remaining(&self) -> Seq<T> {
        take_at_most(self.source().remaining(), self.allowance())
    }

    open spec fn duration(&self) -> Option<nat> {
        self.source().duration()
    }

    open spec fn keeps_duration(&self) -> bool {
        self.source().keeps_duration()
    }

    fn next(&mut self) -> (r: Option<T>)
        ensures
            final(self).allowance() == if old(self).allowance() > 0 {
                (old(self).allowance() - 1) as nat
            } else {
                0
            },
            old(self).allowance() == 0 ==> r is None && final(self).source() == old(self).source(),
            old(self).keeps_duration() ==> final(self).keeps_duration() && final(self).duration()
                == old(self).duration(),
    {
        if self.left > 0 {
            self.left = self.left - 1;
            let ghost before = self.inner.remaining();
            let r = self.inner.next();
            proof {
                if before.len() > 0 {
                    lemma_take_at_most_pop(before, (self.left + 1) as nat);
                }
            }
            r
        } else {
            None
        }
    }

    fn total_duration_nanos(&self) -> (r: Option<u128>) {
        self.inner.total_duration_nanos()
    }
}

impl<T, S: FixedSource<T>> FixedSource<T> for TakeDuration<S> {
    open spec fn wf(&self) -> bool {
        self.source().wf()
    }

    open spec fn remaining(&self) -> Seq<T> {
        take_at_most(self.source().remaining(), self.allowance())
    }

    open spec fn duration(&self) -> Option<nat> {
        self.source().duration()
    }

    open spec fn rate(&self) -> nat {
        self.source().rate()
    }

    open spec fn chans(&self) -> nat {
        self.source().chans()
    }

    fn next(&mut self) -> (r: Option<T>)
        ensures
            final(self).allowance() == if old(self).allowance() > 0 {
                (old(self).allowance() - 1) as nat
            } else {
                0
            },
            old(self).allowance() == 0 ==> r is None && final(self).source() == old(self).source(),
            final(self).rate() == old(self).rate(),
            final(self).chans() == old(self).chans(),
    {
        if self.left > 0 {
            self.left = self.left - 1;
            let ghost before = self.inner.remaining();
            let r = self.inner.next();
            proof {
                if before.len() > 0 {
                    lemma_take_at_most_pop(before, (self.left + 1) as nat);
                }
            }
            r
        } else {
            None
        }
    }

    fn sample_rate(&self) -> (r: SampleRate) {
        self.inner.sample_rate()
    }

    fn channels(&self) -> (r: ChannelCount) {
        self.inner.channels()
    }

    fn total_duration_nanos(&self) -> (r: Option<u128>) {
        self.inner.total_duration_nanos()
    }
}

} // verus!
