use std::time::Duration;
use vstd::prelude::*;

use crate::const_source::list_of_sources::ListOfSources;
use crate::const_source::mixed::{all_advanced, any_present, next_present, present_heads, IntoMixed};
use crate::const_source::route_channels::max_known_durations;
use crate::const_source::ConstSource;
use crate::duration::{duration_from_opt, duration_of, fits_duration, max_known, opt_nat};

verus! {

/// Plays the sources of a vector at the same time.
///
/// Each step takes the next sample of every source that still has one; the
/// samples of one step are combined (averaged) by the caller.
#[derive(Clone, Debug)]
pub struct MixedVec<const SR: u32, const CH: u16, S> {
    sources: Vec<S>,
}

impl<const SR: u32, const CH: u16, S> MixedVec<SR, CH, S> {
    /// The sources being mixed.
    pub closed spec fn list(&self) -> Vec<S> {
        self.sources
    }

    /// The samples of the next step, one per source that still has one, in
    /// source order; `None` once every source has run out.
    pub fn next_samples<T>(&mut self) -> (r: Option<Vec<T>>)
        where
            S: ConstSource<SR, CH, T>,
        requires
            ListOfSources::<SR, CH, T>::wf(&old(self).list()),
        ensures
            ListOfSources::<SR, CH, T>::wf(&final(self).list()),
            all_advanced(
                ListOfSources::<SR, CH, T>::sources(&old(self).list()),
                ListOfSources::<SR, CH, T>::sources(&final(self).list()),
            ),
            any_present(ListOfSources::<SR, CH, T>::sources(&old(self).list())) <==> r is Some,
            r matches Some(v) ==> v@ == present_heads(
                ListOfSources::<SR, CH, T>::sources(&old(self).list()),
            ),
            ListOfSources::<SR, CH, T>::keeps_durations(&old(self).list())
                ==> ListOfSources::<SR, CH, T>::keeps_durations(&final(self).list())
                && ListOfSources::<SR, CH, T>::durations(&final(self).list())
                == ListOfSources::<SR, CH, T>::durations(&old(self).list()),
    {
        next_present::<SR, CH, T, Vec<S>>(&mut self.sources)
    }

    /// Longest of the known durations of the sources in nanoseconds; `None`
    /// when none is known.
    pub fn total_duration_nanos<T>(&self) -> (r: Option<u128>)
        where
            S: ConstSource<SR, CH, T>,
        requires
            ListOfSources::<SR, CH, T>::wf(&self.list()),
        ensures
            opt_nat(r) == max_known(ListOfSources::<SR, CH, T>::durations(&self.list())),
            fits_duration(opt_nat(r)),
    {
        max_known_durations::<SR, CH, T, Vec<S>>(&self.sources)
    }

    /// Longest of the known durations of the sources; `None` when none is
    /// known.
    pub fn total_duration<T>(&self) -> (r: Option<Duration>)
        where
            S: ConstSource<SR, CH, T>,
        requires
            ListOfSources::<SR, CH, T>::wf(&self.list()),
        ensures
            r == duration_of(max_known(ListOfSources::<SR, CH, T>::durations(&self.list()))),
    {
        duration_from_opt(self.total_duration_nanos::<T>())
    }
}

impl<const SR: u32, const CH: u16, T, S: ConstSource<SR, CH, T>> IntoMixed<SR, CH, T> for Vec<S> {
    type MixedSource = MixedVec<SR, CH, S>;

    fn into_mixed(self) -> (r: MixedVec<SR, CH, S>)
        ensures
            r.list() == self,
    {
        MixedVec { sources: self }
    }
}

} // verus!
