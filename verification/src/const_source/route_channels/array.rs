use vstd::prelude::*;

use crate::const_source::list_of_sources::ListOfSources;
use crate::const_source::route_channels::{
    combined_output, max_known_durations, next_combined, uniform_channels,
};
use crate::const_source::ConstSource;
use crate::duration::max_known;

verus! {

/// Interleaves the channels of an array of sources, which each have `CH_IN`
/// channels, into one source with `CH_OUT` channels.
#[derive(Clone, Debug)]
pub struct ChannelCombiningArray<
    const N: usize,
    const SR: u32,
    const CH_IN: u16,
    const CH_OUT: u16,
    S,
> {
    sources: [S; N],
    current: u16,
}

impl<
    const N: usize,
    const SR: u32,
    const CH_IN: u16,
    const CH_OUT: u16,
    T,
    S: ConstSource<SR, CH_IN, T>,
> ConstSource<SR, CH_OUT, T> for ChannelCombiningArray<N, SR, CH_IN, CH_OUT, S> {
    closed spec fn wf(&self) -> bool {
        &&& ListOfSources::<SR, CH_IN, T>::wf(&self.sources)
        &&& CH_OUT > 0
        &&& CH_IN * N == CH_OUT
        &&& self.current < CH_OUT
    }

    closed spec fn remaining(&self) -> Seq<T> {
        combined_output(
            ListOfSources::<SR, CH_IN, T>::sources(&self.sources),
            uniform_channels(N as nat, CH_IN as nat),
            self.current as int,
            CH_OUT as int,
        )
    }

    closed spec fn duration(&self) -> Option<nat> {
        max_known(ListOfSources::<SR, CH_IN, T>::durations(&self.sources))
    }

    fn next(&mut self) -> (r: Option<T>) {
        next_combined::<SR, CH_IN, T, [S; N]>(&mut self.sources, &mut self.current, CH_OUT)
    }

    fn total_duration_nanos(&self) -> (r: Option<u128>) {
        max_known_durations::<SR, CH_IN, T, [S; N]>(&self.sources)
    }
}

/// Combines the channels of an array of sources into one source.
/// The output channel count must be the sum of the inputs' channel counts.
pub trait CombineArrayChannels<const N: usize, const SR: u32, const CH_IN: u16, T, S: ConstSource<
    SR,
    CH_IN,
    T,
>>: ListOfSources<SR, CH_IN, T> {
    fn combine_channels<const CH: u16>(self) -> (r: ChannelCombiningArray<N, SR, CH_IN, CH, S>)
        requires
            CH > 0,
            CH_IN * N == CH,
            self.wf(),
    ;
}

impl<const N: usize, const SR: u32, const CH_IN: u16, T, S: ConstSource<SR, CH_IN, T>> CombineArrayChannels<
    N,
    SR,
    CH_IN,
    T,
    S,
> for [S; N] {
    fn combine_channels<const CH: u16>(self) -> (r: ChannelCombiningArray<N, SR, CH_IN, CH, S>)
        ensures
            r.wf(),
            r.remaining() == combined_output(
                ListOfSources::<SR, CH_IN, T>::sources(&self),
                uniform_channels(N as nat, CH_IN as nat),
                0,
                CH as int,
            ),
            r.duration() == max_known(ListOfSources::<SR, CH_IN, T>::durations(&self)),
    {
        ChannelCombiningArray { sources: self, current: 0 }
    }
}

} // verus!
