use vstd::prelude::*;

use crate::const_source::list_of_sources::ListOfSources;
use crate::const_source::route_channels::{
    combined_output, min_known_durations, next_combined, uniform_channels,
};
use crate::const_source::ConstSource;
use crate::duration::min_known;

verus! {

/// Interleaves the channels of a vector of sources, which each have `CH_IN`
/// channels, into one source with `CH_OUT` channels.
#[derive(Clone, Debug)]
pub struct CombinedChannels<const SR: u32, const CH_IN: u16, const CH_OUT: u16, S> {
    sources: Vec<S>,
    current: u16,
}

impl<const SR: u32, const CH_IN: u16, const CH_OUT: u16, T, S: ConstSource<SR, CH_IN, T>> ConstSource<
    SR,
    CH_OUT,
    T,
> for CombinedChannels<SR, CH_IN, CH_OUT, S> {
    closed spec fn wf(&self) -> bool {
        &&& ListOfSources::<SR, CH_IN, T>::wf(&self.sources)
        &&& CH_OUT > 0
        &&& CH_IN * self.sources@.len() == CH_OUT
        &&& self.current < CH_OUT
    }

    closed spec fn remaining(&self) -> Seq<T> {
        combined_output(
            ListOfSources::<SR, CH_IN, T>::sources(&self.sources),
            uniform_channels(self.sources@.len(), CH_IN as nat),
            self.current as int,
            CH_OUT as int,
        )
    }

    closed spec fn duration(&self) -> Option<nat> {
        min_known(ListOfSources::<SR, CH_IN, T>::durations(&self.sources))
    }

    fn next(&mut self) -> (r: Option<T>) {
        next_combined::<SR, CH_IN, T, Vec<S>>(&mut self.sources, &mut self.current, CH_OUT)
    }

    fn total_duration_nanos(&self) -> (r: Option<u128>) {
        min_known_durations::<SR, CH_IN, T, Vec<S>>(&self.sources)
    }
}

/// The output channel count is not the sum of the inputs' channel counts.
#[derive(Clone, Debug)]
pub struct ChannelCountMismatch {
    pub ch_out: u16,
    pub ch_in: u16,
    pub len: usize,
}

/// Combines the channels of a vector of sources into one source.
pub trait CombineChannels<const SR: u32, const CH_IN: u16, T, S: ConstSource<SR, CH_IN, T>> {
    fn combine_channels<const CH: u16>(self) -> Result<
        CombinedChannels<SR, CH_IN, CH, S>,
        ChannelCountMismatch,
    >;
}

impl<const SR: u32, const CH_IN: u16, T, S: ConstSource<SR, CH_IN, T>> CombineChannels<
    SR,
    CH_IN,
    T,
    S,
> for Vec<S> {
    /// Succeeds exactly when `CH` is `CH_IN` times the number of sources.
    fn combine_channels<const CH: u16>(self) -> (r: Result<
        CombinedChannels<SR, CH_IN, CH, S>,
        ChannelCountMismatch,
    >)
        ensures
            (CH as int == CH_IN as int * self@.len()) <==> r is Ok,
            r matches Err(e) ==> e.ch_out == CH && e.ch_in == CH_IN && e.len == self@.len(),
            r matches Ok(c) ==> (CH > 0 && ListOfSources::<SR, CH_IN, T>::wf(&self)) ==> {
                &&& c.wf()
                &&& c.remaining() == combined_output(
                    ListOfSources::<SR, CH_IN, T>::sources(&self),
                    uniform_channels(self@.len(), CH_IN as nat),
                    0,
                    CH as int,
                )
                &&& c.duration() == min_known(ListOfSources::<SR, CH_IN, T>::durations(&self))
            },
    {
        let expected = (CH_IN as usize).checked_mul(self.len());
        if expected != Some(CH as usize) {
            let len = self.len();
            Err(ChannelCountMismatch { ch_out: CH, ch_in: CH_IN, len })
        } else {
            Ok(CombinedChannels { sources: self, current: 0 })
        }
    }
}

} // verus!
