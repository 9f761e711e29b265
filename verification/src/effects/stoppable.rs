use vstd::prelude::*;

use crate::common::{ChannelCount, SampleRate};
use crate::const_source::ConstSource;
use crate::dynamic_source::DynamicSource;
use crate::fixed_source::FixedSource;

verus! {

/// Wraps a source so that it can be asked to stop.
///
/// Every sample moves a frame offset on by one, modulo the channel count,
/// and the source ends when a stop was asked for and that offset equals the
/// channel count. Since the offset is always reduced below the channel count
/// first, that test never holds: the samples are those of the wrapped source,
/// whether a stop was asked for or not.
pub struct Stoppable<S> {
    inner: S,
    frame_offset: u16,
    stop: bool,
}

impl<S> Stoppable<S> {
    /// The wrapped source.
    pub closed spec fn source(&self) -> S {
        self.inner
    }

    /// Where in the current frame the source is.
    pub closed spec fn offset(&self) -> nat {
        self.frame_offset as nat
    }

    /// Whether a stop was asked for.
    pub closed spec fn stop_requested(&self) -> bool {
        self.stop
    }

    /// Wraps `source`; no stop is asked for yet.
    pub fn new(source: S) -> (r: Self)
        ensures
            r.source() == source,
            r.offset() == 0,
            !r.stop_requested(),
    {
        Stoppable { inner: source, frame_offset: 0, stop: false }
    }

    /// Asks the source to stop.
    pub fn stop(&mut self)
        ensures
            final(self).source() == old(self).source(),
            final(self).offset() == old(self).offset(),
            final(self).stop_requested(),
    {
        self.stop = true;
    }

    /// The wrapped source.
    pub fn inner(&self) -> (r: &S)
        ensures
            *r == self.source(),
    {
        &self.inner
    }

    /// Gives the wrapped source back.
    pub fn into_inner(self) -> (r: S)
        ensures
            r == self.source(),
    {
        self.inner
    }
}

impl<const SR: u32, const CH: u16, T, S: ConstSource<SR, CH, T>> ConstSource<SR, CH, T> for Stoppable<
    S,
> {
    open spec fn wf(&self) -> bool {
        &&& self.source().wf()
        &&& CH > 0
        &&& self.offset() < CH
    }

    open spec fn remaining(&self) -> Seq<T> {
        self.source().remaining()
    }

    open spec fn duration(&self) -> Option<nat> {
        self.source().duration()
    }

    open spec fn keeps_duration(&self) -> bool {
        self.source().keeps_duration()
    }

    fn next(&mut self) -> (r: Option<T>)
        ensures
            old(self).keeps_duration() ==> final(self).keeps_duration() && final(self).duration()
                == old(self).duration(),
            final(self).stop_requested() == old(self).stop_requested(),
            final(self).offset() == (old(self).offset() + 1) % (CH as nat),
    {
        let channels = self.inner.channels();
        self.frame_offset = (self.frame_offset + 1) % channels;
        if self.stop && self.frame_offset == channels {
            None
        } else {
            self.inner.next()
        }
    }

    fn total_duration_nanos(&self) -> (r: Option<u128>) {
        self.inner.total_duration_nanos()
    }
}

impl<T, S: FixedSource<T>> FixedSource<T> for Stoppable<S> {
    open spec fn wf(&self) -> bool {
        &&& self.source().wf()
        &&& self.offset() < self.source().chans()
    }

    open spec fn remaining(&self) -> Seq<T> {
        self.source().remaining()
    }

    open spec fn duration(&self) -> Option<nat> {
        self.source().duration()
    }

    open spec fn rate(&self) -> nat {
        self.source().rate()
    }

    open spec fn chans(&self) -> nat {
        self.source().chans()
    }

    fn next(&mut self) -> (r: Option<T>)
        ensures
            final(self).rate() == old(self).rate(),
            final(self).chans() == old(self).chans(),
            final(self).stop_requested() == old(self).stop_requested(),
            final(self).offset() == (old(self).offset() + 1) % old(self).chans(),
    {
        let channels = self.inner.channels();
        self.frame_offset = (self.frame_offset + 1) % channels;
        if self.stop && self.frame_offset == channels {
            None
        } else {
            self.inner.next()
        }
    }

    fn sample_rate(&self) -> (r: SampleRate) {
        self.inner.sample_rate()
    }

    fn channels(&self) -> (r: ChannelCount) {
        self.inner.channels()
    }

    fn total_duration_nanos(&self) -> (r: Option<u128>) {
        self.inner.total_duration_nanos()
    }
}

impl<T, S: DynamicSource<T>> DynamicSource<T> for Stoppable<S> {
    open spec fn wf(&self) -> bool {
        &&& self.source().wf()
        &&& self.offset() < u16::MAX
    }

    open spec fn remaining(&self) -> Seq<T> {
        self.source().remaining()
    }

    open spec fn duration(&self) -> Option<nat> {
        self.source().duration()
    }

    open spec fn rate(&self) -> nat {
        self.source().rate()
    }

    open spec fn chans(&self) -> nat {
        self.source().chans()
    }

    open spec fn span(&self) -> Option<nat> {
        self.source().span()
    }

    fn next(&mut self) -> (r: Option<T>)
        ensures
            final(self).stop_requested() == old(self).stop_requested(),
            final(self).offset() == (old(self).offset() + 1) % old(self).chans(),
    {
        let channels = self.inner.channels();
        self.frame_offset = (self.frame_offset + 1) % channels;
        if self.stop && self.frame_offset == channels {
            None
        } else {
            self.inner.next()
        }
    }

    fn current_span_len(&self) -> (r: Option<usize>) {
        self.inner.current_span_len()
    }

    fn sample_rate(&self) -> (r: SampleRate) {
        self.inner.sample_rate()
    }

    fn channels(&self) -> (r: ChannelCount) {
        self.inner.channels()
    }

    fn total_duration_nanos(&self) -> (r: Option<u128>) {
        self.inner.total_duration_nanos()
    }
}

} // verus!
