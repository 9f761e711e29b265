use vstd::prelude::*;

use crate::common::{ChannelCount, SampleRate};
use crate::const_source::ConstSource;
use crate::dynamic_source::DynamicSource;
use crate::fixed_source::FixedSource;

verus! {

/// Carries a value of the caller's along with a source; the samples, the
/// sample rate, the channel count and the duration are those of the source.
pub struct WithData<S, D> {
    inner: S,
    data: D,
}

impl<S, D> WithData<S, D> {
    /// The wrapped source.
    pub closed spec fn source(&self) -> S {
        self.inner
    }

    /// The value carried along.
    pub closed spec fn carried(&self) -> D {
        self.data
    }

    /// Carries `data` along with `source`.
    pub fn new(source: S, data: D) -> (r: Self)
        ensures
            r.source() == source,
            r.carried() == data,
    {
        WithData { inner: source, data }
    }

    /// The value carried along.
    pub fn data(&self) -> (r: &D)
        ensures
            *r == self.carried(),
    {
        &self.data
    }

    /// The value carried along, to change it.
    pub fn data_mut(&mut self) -> (r: &mut D)
        ensures
            *r == old(self).carried(),
            final(self).carried() == *final(r),
            final(self).source() == old(self).source(),
    {
        &mut self.data
    }

    /// The wrapped source.
    pub fn inner(&self) -> (r: &S)
        ensures
            *r == self.source(),
    {
        &self.inner
    }

    /// Gives the wrapped source back.
    pub fn into_inner(self) -> (r: S)
        ensures
            r == self.source(),
    {
        self.inner
    }
}

impl<const SR: u32, const CH: u16, T, S: ConstSource<SR, CH, T>, D> ConstSource<SR, CH, T> for WithData<
    S,
    D,
> {
    open spec fn wf(&self) -> bool {
        self.source().wf()
    }

    open spec fn remaining(&self) -> Seq<T> {
        self.source().remaining()
    }

    open spec fn duration(&self) -> Option<nat> {
        self.source().duration()
    }

    open spec fn keeps_duration(&self) -> bool {
        self.source().keeps_duration()
    }

    fn next(&mut self) -> (r: Option<T>)
        ensures
            final(self).carried() == old(self).carried(),
            old(self).keeps_duration() ==> final(self).keeps_duration() && final(self).duration()
                == old(self).duration(),
    {
        self.inner.next()
    }

    fn total_duration_nanos(&self) -> (r: Option<u128>) {
        self.inner.total_duration_nanos()
    }
}

impl<T, S: FixedSource<T>, D> FixedSource<T> for WithData<S, D> {
    open spec fn wf(&self) -> bool {
        self.source().wf()
    }

    open spec fn remaining(&self) -> Seq<T> {
        self.source().remaining()
    }

    open spec fn duration(&self) -> Option<nat> {
        self.source().duration()
    }

    open spec fn rate(&self) -> nat {
        self.source().rate()
    }

    open spec fn chans(&self) -> nat {
        self.source().chans()
    }

    fn next(&mut self) -> (r: Option<T>)
        ensures
            final(self).rate() == old(self).rate(),
            final(self).chans() == old(self).chans(),
            final(self).carried() == old(self).carried(),
    {
        self.inner.next()
    }

    fn sample_rate(&self) -> (r: SampleRate) {
        self.inner.sample_rate()
    }

    fn channels(&self) -> (r: ChannelCount) {
        self.inner.channels()
    }

    fn total_duration_nanos(&self) -> (r: Option<u128>) {
        self.inner.total_duration_nanos()
    }
}

impl<T, S: DynamicSource<T>, D> DynamicSource<T> for WithData<S, D> {
    open spec fn wf(&self) -> bool {
        self.source().wf()
    }

    open spec fn remaining(&self) -> Seq<T> {
        self.source().remaining()
    }

    open spec fn duration(&self) -> Option<nat> {
        self.source().duration()
    }

    open spec fn rate(&self) -> nat {
        self.source().rate()
    }

    open spec fn chans(&self) -> nat {
        self.source().chans()
    }

    open spec fn span(&self) -> Option<nat> {
        self.source().span()
    }

    fn next(&mut self) -> (r: Option<T>)
        ensures
            final(self).carried() == old(self).carried(),
    {
        self.inner.next()
    }

    fn current_span_len(&self) -> (r: Option<usize>) {
        self.inner.current_span_len()
    }

    fn sample_rate(&self) -> (r: SampleRate) {
        self.inner.sample_rate()
    }

    fn channels(&self) -> (r: ChannelCount) {
        self.inner.channels()
    }

    fn total_duration_nanos(&self) -> (r: Option<u128>) {
        self.inner.total_duration_nanos()
    }
}

} // verus!
