use std::time::Duration;
use vstd::prelude::*;

use crate::duration::{duration_from_opt, duration_of, fits_duration, opt_nat};
use crate::const_source::buffer::{buffer_duration, SamplesBuffer};
use crate::const_source::chain::{chained_duration, SourceChain};
use crate::effects::pausable::{paused_after, Pausable, Paused};
use crate::effects::position::TrackPosition;
use crate::effects::stoppable::Stoppable;
use crate::effects::take_samples::{take_at_most, TakeSamples};
use crate::effects::with_data::WithData;
use crate::dynamic_source::DynamicSource;
use crate::fixed_source::FixedSource;

pub mod buffer;
pub mod chain;
pub mod list;
pub mod list_of_sources;
pub mod mixed;
pub mod mixer;
pub mod queue;
pub mod queued;
pub mod route_channels;

verus! {

/// What one call of `next` does to the samples a source still holds: the
/// first one comes out, or nothing does once none is left. What a source
/// holds after it has reported its end is not described.
pub open spec fn pops<T>(before: Seq<T>, after: Seq<T>, r: Option<T>) -> bool {
    if before.len() == 0 {
        r is None
    } else {
        &&& r == Some(before[0])
        &&& after == before.drop_first()
    }
}

/// A source of interleaved samples whose sample rate (`SR`) and channel
/// count (`CH`) are fixed at compile time.
///
/// A source is seen as the finite sequence of samples it yields before it
/// next reports its end (`remaining`), and the duration it reports
/// (`duration`, in nanoseconds, `None` when unknown).
pub trait ConstSource<const SR: u32, const CH: u16, T>: Sized {
    /// The source's own invariant.
    spec fn wf(&self) -> bool;

    /// The samples the source still yields, in order.
    spec fn remaining(&self) -> Seq<T>;

    /// The total duration the source reports, in nanoseconds.
    spec fn duration(&self) -> Option<nat>;

    /// Whether the source keeps the duration it reports while it plays;
    /// a source in general is free to change it.
    open spec fn keeps_duration(&self) -> bool {
        false
    }

    /// Yields the next sample.
    fn next(&mut self) -> (r: Option<T>)
        requires
            old(self).wf(),
        ensures
            final(self).wf(),
            pops(old(self).remaining(), final(self).remaining(), r),
            old(self).keeps_duration() ==> final(self).keeps_duration() && final(self).duration()
                == old(self).duration(),
    ;

    /// The total duration in nanoseconds, `None` when unknown. This value is
    /// free to change at any time.
    fn total_duration_nanos(&self) -> (r: Option<u128>)
        requires
            self.wf(),
        ensures
            opt_nat(r) == self.duration(),
            fits_duration(self.duration()),
    ;

    /// The total duration, `None` when unknown.
    fn total_duration(&self) -> (r: Option<Duration>)
        requires
            self.wf(),
        ensures
            r == duration_of(self.duration()),
    {
        duration_from_opt(self.total_duration_nanos())
    }

    /// Samples per second per channel.
    fn sample_rate(&self) -> (r: u32)
        ensures
            r == SR,
    {
        SR
    }

    /// Number of interleaved channels.
    fn channels(&self) -> (r: u16)
        ensures
            r == CH,
    {
        CH
    }

    /// Drains the source into a vector.
    fn collect_samples(self) -> (r: Vec<T>)
        requires
            self.wf(),
        ensures
            r@ == self.remaining(),
    {
        let ghost all = self.remaining();
        let mut source = self;
        let mut out: Vec<T> = Vec::new();
        loop
            invariant
                source.wf(),
                out@ + source.remaining() == all,
                all == self.remaining(),
            decreases source.remaining().len(),
        {
            let ghost before = source.remaining();
            match source.next() {
                Some(s) => {
                    out.push(s);
                    assert(out@ + source.remaining() =~= all) by {
                        assert(before =~= seq![s] + before.drop_first());
                    }
                },
                None => {
                    assert(out@ =~= all);
                    return out;
                },
            }
        }
    }
}

/// The effects and conversions offered by every const source.
pub trait ConstSourceExt<const SR: u32, const CH: u16, T>: ConstSource<SR, CH, T> {
    /// Plays at most `samples` samples of this source, then ends.
    fn take_samples(self, samples: usize) -> (r: TakeSamples<Self>)
        requires
            self.wf(),
        ensures
            r.wf(),
            r.remaining() == take_at_most(self.remaining(), samples as nat),
            r.duration() == self.duration(),
    ;

    /// Plays this source as a fixed source, whose sample rate and channel
    /// count are read at run time.
    fn into_fixed_source(self) -> (r: ConstSourceAdapter<SR, CH, Self>)
        requires
            self.wf(),
            SR > 0,
            CH > 0,
        ensures
            r.source() == self,
            FixedSource::<T>::wf(&r),
    ;

    /// Plays this source as a dynamic source, whose one span lasts until its
    /// end.
    fn into_dynamic_source(self) -> (r: ConstSourceAdapter<SR, CH, Self>)
        requires
            self.wf(),
            SR > 0,
            CH > 0,
        ensures
            r.source() == self,
            DynamicSource::<T>::wf(&r),
            DynamicSource::<T>::span(&r) is None,
    ;

    /// Carries `data` along with this source.
    fn with_data<D>(self, data: D) -> (r: WithData<Self, D>)
        ensures
            r.source() == self,
            r.carried() == data,
    ;

    /// Wraps this source so that it can be asked to stop.
    fn stoppable(self) -> (r: Stoppable<Self>)
        requires
            self.wf(),
            CH > 0,
        ensures
            r.wf(),
            r.source() == self,
            !r.stop_requested(),
    ;

    /// Wraps this source so that it can be paused; `silence` is played while
    /// paused.
    fn pausable(self, paused: bool, silence: T) -> (r: Pausable<ConstSourceAdapter<SR, CH, Self>, T>)
        requires
            self.wf(),
            SR > 0,
            CH > 0,
        ensures
            r.source().source() == self,
            r.state() == paused_after(Paused::No, paused),
            r.silence() == silence,
    ;

    /// Counts the samples played, to tell how far into this source playback
    /// is.
    fn track_position(self) -> (r: TrackPosition<Self>)
        requires
            self.wf(),
            SR > 0,
            CH > 0,
        ensures
            r.wf(),
            r.source() == self,
            r.counted() == 0,
    ;

    /// Plays `next` directly after this source.
    fn chain_source<N: ConstSource<SR, CH, T>>(self, next: N) -> (r: SourceChain<Self, N>)
        requires
            self.wf(),
            next.wf(),
        ensures
            r.wf(),
            r.remaining() == self.remaining() + next.remaining(),
            r.duration() == chained_duration(self.duration(), next.duration()),
    ;

    /// Plays this source to its end and keeps its samples in a buffer.
    fn collect_into_buffer(self) -> (r: SamplesBuffer<SR, CH, T>)
        where
            T: Copy,
        requires
            self.wf(),
            SR > 0,
            CH > 0,
        ensures
            r.wf(),
            r.remaining() == self.remaining(),
            r.data() == self.remaining(),
            r.duration() == Some(buffer_duration(self.remaining().len(), SR as nat, CH as nat)),
    ;
}

impl<const SR: u32, const CH: u16, T, S: ConstSource<SR, CH, T>> ConstSourceExt<SR, CH, T> for S {
    fn take_samples(self, samples: usize) -> (r: TakeSamples<Self>) {
        TakeSamples::new(self, samples)
    }

    fn into_fixed_source(self) -> (r: ConstSourceAdapter<SR, CH, Self>) {
        ConstSourceAdapter { inner: self }
    }

    fn into_dynamic_source(self) -> (r: ConstSourceAdapter<SR, CH, Self>) {
        ConstSourceAdapter { inner: self }
    }

    fn with_data<D>(self, data: D) -> (r: WithData<Self, D>) {
        WithData::new(self, data)
    }

    fn stoppable(self) -> (r: Stoppable<Self>) {
        Stoppable::new(self)
    }

    fn pausable(self, paused: bool, silence: T) -> (r: Pausable<ConstSourceAdapter<SR, CH, Self>, T>) {
        Pausable::new(ConstSourceAdapter { inner: self }, paused, silence)
    }

    fn track_position(self) -> (r: TrackPosition<Self>) {
        TrackPosition::new(self, SR, CH)
    }

    fn chain_source<N: ConstSource<SR, CH, T>>(self, next: N) -> (r: SourceChain<Self, N>) {
        SourceChain::new(self, next)
    }

    fn collect_into_buffer(self) -> (r: SamplesBuffer<SR, CH, T>)
        where
            T: Copy,
    {
        SamplesBuffer::new(self.collect_samples())
    }
}

/// A const source played as a fixed source keeps its samples and its
/// duration, and reports the const source's sample rate and channel count,
/// so that turning it back into a const source with those parameters
/// succeeds.
pub proof fn lemma_adapter_keeps_source<const SR: u32, const CH: u16, T, S: ConstSource<SR, CH, T>>(
    adapter: ConstSourceAdapter<SR, CH, S>,
)
    ensures
        FixedSource::<T>::rate(&adapter) == SR,
        FixedSource::<T>::chans(&adapter) == CH,
        FixedSource::<T>::remaining(&adapter) == adapter.source().remaining(),
        FixedSource::<T>::duration(&adapter) == adapter.source().duration(),
{
}

/// A const source played as a fixed source.
pub struct ConstSourceAdapter<const SR: u32, const CH: u16, S> {
    inner: S,
}

impl<const SR: u32, const CH: u16, S> ConstSourceAdapter<SR, CH, S> {
    /// The const source being played.
    pub closed spec fn source(&self) -> S {
        self.inner
    }
}

impl<const SR: u32, const CH: u16, T, S: ConstSource<SR, CH, T>> FixedSource<T> for ConstSourceAdapter<
    SR,
    CH,
    S,
> {
    open spec fn wf(&self) -> bool {
        &&& self.source().wf()
        &&& SR > 0
        &&& CH > 0
    }

    open spec fn remaining(&self) -> Seq<T> {
        self.source().remaining()
    }

    open spec fn duration(&self) -> Option<nat> {
        self.source().duration()
    }

    open spec fn rate(&self) -> nat {
        SR as nat
    }

    open spec fn chans(&self) -> nat {
        CH as nat
    }

    fn next(&mut self) -> (r: Option<T>) {
        self.inner.next()
    }

    fn sample_rate(&self) -> (r: u32) {
        SR
    }

    fn channels(&self) -> (r: u16) {
        CH
    }

    fn total_duration_nanos(&self) -> (r: Option<u128>) {
        self.inner.total_duration_nanos()
    }
}

impl<const SR: u32, const CH: u16, T, S: ConstSource<SR, CH, T>> DynamicSource<T> for ConstSourceAdapter<
    SR,
    CH,
    S,
> {
    open spec fn wf(&self) -> bool {
        &&& self.source().wf()
        &&& SR > 0
        &&& CH > 0
    }

    open spec fn remaining(&self) -> Seq<T> {
        self.source().remaining()
    }

    open spec fn duration(&self) -> Option<nat> {
        self.source().duration()
    }

    open spec fn rate(&self) -> nat {
        SR as nat
    }

    open spec fn chans(&self) -> nat {
        CH as nat
    }

    open spec fn span(&self) -> Option<nat> {
        None
    }

    fn next(&mut self) -> (r: Option<T>) {
        self.inner.next()
    }

    fn current_span_len(&self) -> (r: Option<usize>) {
        None
    }

    fn sample_rate(&self) -> (r: u32) {
        SR
    }

    fn channels(&self) -> (r: u16) {
        CH
    }

    fn total_duration_nanos(&self) -> (r: Option<u128>) {
        self.inner.total_duration_nanos()
    }
}

} // verus!
