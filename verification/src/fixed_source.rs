use std::time::Duration;
use vstd::prelude::*;

use crate::common::{ChannelCount, SampleRate};
use crate::const_source::{pops, ConstSource};
use crate::duration::{duration_from_opt, duration_of, fits_duration, opt_nat};
use crate::const_source::buffer::buffer_duration;
use crate::effects::pausable::{paused_after, Pausable, Paused};
use crate::effects::stoppable::Stoppable;
use crate::effects::with_data::WithData;
use crate::fixed_source::buffer::SamplesBuffer;
use crate::effects::take_samples::{take_at_most, TakeSamples};

pub mod buffer;
pub mod list_of_sources;
pub mod mixed;

verus! {

/// A source of interleaved samples whose sample rate and channel count are
/// set when it is made and do not change while it plays.
pub trait FixedSource<T>: Sized {
    /// The source's own invariant.
    spec fn wf(&self) -> bool;

    /// The samples the source yields before it next reports its end.
    spec fn remaining(&self) -> Seq<T>;

    /// The total duration the source reports, in nanoseconds.
    spec fn duration(&self) -> Option<nat>;

    /// Samples per second per channel.
    spec fn rate(&self) -> nat;

    /// Number of interleaved channels.
    spec fn chans(&self) -> nat;

    /// Yields the next sample; rate and channel count stay as they are.
    fn next(&mut self) -> (r: Option<T>)
        requires
            old(self).wf(),
        ensures
            final(self).wf(),
            pops(old(self).remaining(), final(self).remaining(), r),
            final(self).rate() == old(self).rate(),
            final(self).chans() == old(self).chans(),
    ;

    /// Samples per second per channel; never zero.
    fn sample_rate(&self) -> (r: SampleRate)
        requires
            self.wf(),
        ensures
            r == self.rate(),
            r > 0,
    ;

    /// Number of interleaved channels; never zero.
    fn channels(&self) -> (r: ChannelCount)
        requires
            self.wf(),
        ensures
            r == self.chans(),
            r > 0,
    ;

    /// The total duration in nanoseconds, `None` when unknown.
    fn total_duration_nanos(&self) -> (r: Option<u128>)
        requires
            self.wf(),
        ensures
            opt_nat(r) == self.duration(),
            fits_duration(self.duration()),
    ;

    /// The total duration, `None` when unknown.
    fn total_duration(&self) -> (r: Option<Duration>)
        requires
            self.wf(),
        ensures
            r == duration_of(self.duration()),
    {
        duration_from_opt(self.total_duration_nanos())
    }

    /// Drains the source into a vector.
    fn collect_samples(self) -> (r: Vec<T>)
        requires
            self.wf(),
        ensures
            r@ == self.remaining(),
    {
        let ghost all = self.remaining();
        let mut source = self;
        let mut out: Vec<T> = Vec::new();
        loop
            invariant
                source.wf(),
                out@ + source.remaining() == all,
                all == self.remaining(),
            decreases source.remaining().len(),
        {
            let ghost before = source.remaining();
            match source.next() {
                Some(s) => {
                    out.push(s);
                    assert(out@ + source.remaining() =~= all) by {
                        assert(before =~= seq![s] + before.drop_first());
                    }
                },
                None => {
                    assert(out@ =~= all);
                    return out;
                },
            }
        }
    }
}

/// A fixed source whose parameters were checked to be `SR` and `CH`, played
/// as a const source.
pub struct IntoConstSource<const SR: u32, const CH: u16, S>(S);

impl<const SR: u32, const CH: u16, T, S: FixedSource<T>> ConstSource<SR, CH, T> for IntoConstSource<
    SR,
    CH,
    S,
> {
    closed spec fn wf(&self) -> bool {
        &&& self.0.wf()
        &&& self.0.rate() == SR
        &&& self.0.chans() == CH
    }

    closed spec fn remaining(&self) -> Seq<T> {
        self.0.remaining()
    }

    closed spec fn duration(&self) -> Option<nat> {
        self.0.duration()
    }

    fn next(&mut self) -> (r: Option<T>)
        ensures
            old(self).keeps_duration() ==> final(self).keeps_duration() && final(self).duration()
                == old(self).duration(),
    {
        self.0.next()
    }

    fn total_duration_nanos(&self) -> (r: Option<u128>) {
        self.0.total_duration_nanos()
    }
}

/// The fixed source's parameters are not the ones the const source needs.
#[derive(Debug, Clone, Copy, PartialEq, Eq)]
pub struct ParameterMismatch<const SR: u32, const CH: u16> {
    pub sample_rate: SampleRate,
    pub channel_count: ChannelCount,
}

/// Which of the two parameters of a fixed source differ from those a const
/// source needs.
#[derive(Debug, Clone, Copy, PartialEq, Eq, Structural)]
pub enum MismatchedParameters {
    /// Only the channel count differs.
    ChannelCount,
    /// Both the sample rate and the channel count differ.
    Both,
    /// Only the sample rate differs.
    SampleRate,
}

impl<const SR: u32, const CH: u16> ParameterMismatch<SR, CH> {
    /// Which parameters differ; the error is only made when one does.
    pub fn what_differs(&self) -> (r: MismatchedParameters)
        requires
            self.sample_rate != SR || self.channel_count != CH,
        ensures
            r == if self.sample_rate == SR {
                MismatchedParameters::ChannelCount
            } else if self.channel_count != CH {
                MismatchedParameters::Both
            } else {
                MismatchedParameters::SampleRate
            },
    {
        if self.sample_rate == SR && self.channel_count != CH {
            MismatchedParameters::ChannelCount
        } else if self.sample_rate != SR && self.channel_count != CH {
            MismatchedParameters::Both
        } else {
            MismatchedParameters::SampleRate
        }
    }
}

/// Conversions offered by every fixed source.
pub trait FixedSourceExt<T>: FixedSource<T> {
    /// Carries `data` along with this source.
    fn with_data<D>(self, data: D) -> (r: WithData<Self, D>)
        ensures
            r.source() == self,
            r.carried() == data,
    ;

    /// Wraps this source so that it can be asked to stop.
    fn stoppable(self) -> (r: Stoppable<Self>)
        requires
            self.wf(),
        ensures
            r.wf(),
            r.source() == self,
            !r.stop_requested(),
    ;

    /// Wraps this source so that it can be paused; `silence` is played while
    /// paused.
    fn pausable(self, paused: bool, silence: T) -> (r: Pausable<Self, T>)
        where
            T: Copy,
        requires
            self.wf(),
        ensures
            r.wf(),
            r.source() == self,
            r.state() == paused_after(Paused::No, paused),
            r.silence() == silence,
    ;

    /// Plays this source to its end and keeps its samples in a buffer with
    /// the same sample rate and channel count.
    fn collect_into_buffer(self) -> (r: SamplesBuffer<T>)
        where
            T: Copy,
        requires
            self.wf(),
        ensures
            r.wf(),
            r.remaining() == self.remaining(),
            r.data() == self.remaining(),
            r.rate() == self.rate(),
            r.chans() == self.chans(),
            r.duration() == Some(buffer_duration(self.remaining().len(), self.rate(), self.chans())),
    ;

    /// Plays at most `samples` samples of this source, then ends.
    fn take_samples(self, samples: usize) -> (r: TakeSamples<Self>)
        requires
            self.wf(),
        ensures
            r.wf(),
            r.remaining() == take_at_most(self.remaining(), samples as nat),
            r.duration() == self.duration(),
            r.rate() == self.rate(),
            r.chans() == self.chans(),
    ;

    /// Plays this source as a const source with sample rate `SR` and `CH`
    /// channels; fails, reporting this source's parameters, when they are not
    /// those.
    fn try_into_const_source<const SR: u32, const CH: u16>(self) -> (r: Result<
        IntoConstSource<SR, CH, Self>,
        ParameterMismatch<SR, CH>,
    >)
        requires
            self.wf(),
        ensures
            (self.chans() == CH && self.rate() == SR) <==> r is Ok,
            r matches Ok(c) ==> {
                &&& c.wf()
                &&& c.remaining() == self.remaining()
                &&& c.duration() == self.duration()
            },
            r matches Err(e) ==> e.sample_rate == self.rate() && e.channel_count == self.chans(),
    ;
}

impl<T, S: FixedSource<T>> FixedSourceExt<T> for S {
    fn with_data<D>(self, data: D) -> (r: WithData<Self, D>) {
        WithData::new(self, data)
    }

    fn stoppable(self) -> (r: Stoppable<Self>) {
        let channels = self.channels();
        assert(channels > 0);
        Stoppable::new(self)
    }

    fn pausable(self, paused: bool, silence: T) -> (r: Pausable<Self, T>)
        where
            T: Copy,
    {
        let channels = self.channels();
        assert(channels > 0);
        Pausable::new(self, paused, silence)
    }

    fn collect_into_buffer(self) -> (r: SamplesBuffer<T>)
        where
            T: Copy,
    {
        let channels = self.channels();
        let sample_rate = self.sample_rate();
        SamplesBuffer::new(channels, sample_rate, self.collect_samples())
    }

    fn take_samples(self, samples: usize) -> (r: TakeSamples<Self>) {
        TakeSamples::new(self, samples)
    }

    fn try_into_const_source<const SR: u32, const CH: u16>(self) -> (r: Result<
        IntoConstSource<SR, CH, Self>,
        ParameterMismatch<SR, CH>,
    >) {
        if self.channels() != CH || self.sample_rate() != SR {
            Err(ParameterMismatch { sample_rate: self.sample_rate(), channel_count: self.channels() })
        } else {
            Ok(IntoConstSource(self))
        }
    }
}

} // verus!
