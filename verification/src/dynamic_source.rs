use std::time::Duration;
use vstd::prelude::*;

use crate::common::{ChannelCount, SampleRate};
use crate::const_source::pops;
use crate::duration::{duration_from_opt, duration_of, fits_duration, opt_nat};

verus! {

/// A source whose sample rate and channel count may change, but only where
/// one span of samples ends and the next begins.
pub trait DynamicSource<T>: Sized {
    /// The source's own invariant.
    spec fn wf(&self) -> bool;

    /// The samples the source yields before it next reports its end.
    spec fn remaining(&self) -> Seq<T>;

    /// The total duration the source reports, in nanoseconds.
    spec fn duration(&self) -> Option<nat>;

    /// Samples per second per channel in the current span.
    spec fn rate(&self) -> nat;

    /// Number of interleaved channels in the current span.
    spec fn chans(&self) -> nat;

    /// Samples left in the current span; `None` when the current span lasts
    /// until the end, so that the parameters no longer change.
    spec fn span(&self) -> Option<nat>;

    /// Yields the next sample; once the span is endless, it stays so and the
    /// parameters stay as they are.
    fn next(&mut self) -> (r: Option<T>)
        requires
            old(self).wf(),
        ensures
            final(self).wf(),
            pops(old(self).remaining(), final(self).remaining(), r),
            old(self).span() is None ==> {
                &&& final(self).span() is None
                &&& final(self).rate() == old(self).rate()
                &&& final(self).chans() == old(self).chans()
            },
    ;

    /// Samples left in the current span; `None` when it lasts until the end.
    fn current_span_len(&self) -> (r: Option<usize>)
        requires
            self.wf(),
        ensures
            match r {
                Some(n) => self.span() == Some(n as nat),
                None => self.span() is None,
            },
    ;

    /// Samples per second per channel in the current span; never zero.
    fn sample_rate(&self) -> (r: SampleRate)
        requires
            self.wf(),
        ensures
            r == self.rate(),
            r > 0,
    ;

    /// Number of interleaved channels in the current span; never zero.
    fn channels(&self) -> (r: ChannelCount)
        requires
            self.wf(),
        ensures
            r == self.chans(),
            r > 0,
    ;

    /// The total duration in nanoseconds, `None` when unknown.
    fn total_duration_nanos(&self) -> (r: Option<u128>)
        requires
            self.wf(),
        ensures
            opt_nat(r) == self.duration(),
            fits_duration(self.duration()),
    ;

    /// The total duration, `None` when unknown.
    fn total_duration(&self) -> (r: Option<Duration>)
        requires
            self.wf(),
        ensures
            r == duration_of(self.duration()),
    {
        duration_from_opt(self.total_duration_nanos())
    }
}

} // verus!
