use vstd::prelude::*;

use crate::common::{ChannelCount, SampleRate};
use crate::dynamic_source::DynamicSource;
use crate::effects::stoppable::Stoppable;
use crate::effects::with_data::WithData;
use crate::fixed_source::FixedSource;

verus! {

/// A dynamic source whose current span lasts until its end, played as a
/// fixed source.
pub struct AsFixedSource<S>(S);

impl<S> AsFixedSource<S> {
    /// The dynamic source being played.
    pub closed spec fn source(&self) -> S {
        self.0
    }
}

impl<T, S: DynamicSource<T>> FixedSource<T> for AsFixedSource<S> {
    open spec fn wf(&self) -> bool {
        &&& self.source().wf()
        &&& self.source().span() is None
    }

    open spec fn remaining(&self) -> Seq<T> {
        self.source().remaining()
    }

    open spec fn duration(&self) -> Option<nat> {
        self.source().duration()
    }

    open spec fn rate(&self) -> nat {
        self.source().rate()
    }

    open spec fn chans(&self) -> nat {
        self.source().chans()
    }

    fn next(&mut self) -> (r: Option<T>)
        ensures
            final(self).rate() == old(self).rate(),
            final(self).chans() == old(self).chans(),
    {
        self.0.next()
    }

    fn sample_rate(&self) -> (r: SampleRate) {
        self.0.sample_rate()
    }

    fn channels(&self) -> (r: ChannelCount) {
        self.0.channels()
    }

    fn total_duration_nanos(&self) -> (r: Option<u128>) {
        self.0.total_duration_nanos()
    }
}

/// The source has a span after which its parameters may change; resample it
/// into a fixed source instead.
#[derive(Debug, Clone, Copy, PartialEq, Eq, Structural)]
pub struct ParametersCanChange;

/// Conversions and effects offered by every dynamic source.
pub trait ExtendDynamicSource<T>: DynamicSource<T> {
    /// Plays this source as a fixed source; succeeds only when its current
    /// span lasts until its end, so that its parameters cannot change.
    fn try_as_fixed_source(self) -> (r: Result<AsFixedSource<Self>, ParametersCanChange>)
        requires
            self.wf(),
        ensures
            r is Ok <==> self.span() is None,
            r matches Ok(f) ==> f.source() == self && FixedSource::<T>::wf(&f),
    ;

    /// Wraps this source so that it can be asked to stop.
    fn stoppable(self) -> (r: Stoppable<Self>)
        requires
            self.wf(),
        ensures
            DynamicSource::<T>::wf(&r),
            r.source() == self,
            !r.stop_requested(),
    ;

    /// Carries `data` along with this source.
    fn with_data<D>(self, data: D) -> (r: WithData<Self, D>)
        ensures
            r.source() == self,
            r.carried() == data,
    ;
}

impl<T, S: DynamicSource<T>> ExtendDynamicSource<T> for S {
    fn try_as_fixed_source(self) -> (r: Result<AsFixedSource<Self>, ParametersCanChange>) {
        if self.current_span_len().is_none() {
            Ok(AsFixedSource(self))
        } else {
            Err(ParametersCanChange)
        }
    }

    fn stoppable(self) -> (r: Stoppable<Self>) {
        Stoppable::new(self)
    }

    fn with_data<D>(self, data: D) -> (r: WithData<Self, D>) {
        WithData::new(self, data)
    }
}

} // verus!
