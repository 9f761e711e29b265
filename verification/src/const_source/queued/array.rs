use vstd::prelude::*;

use crate::const_source::list::IntoList;
use crate::const_source::list_of_sources::ListOfSources;
use crate::const_source::queued::{next_in_order, sum_known_durations};
use crate::const_source::ConstSource;
use crate::duration::{capped, sum_known};

verus! {

/// Plays the sources of an array one after another.
#[derive(Clone, Debug)]
pub struct QueuedArray<const N: usize, const SR: u32, const CH: u16, S> {
    sources: [S; N],
    current: usize,
}

impl<const N: usize, const SR: u32, const CH: u16, S> QueuedArray<N, SR, CH, S> {
    /// Whether every source has been played to its end; a drained queue
    /// stays as it is and yields nothing more.
    pub closed spec fn drained(&self) -> bool {
        self.current >= N
    }
}

impl<const N: usize, const SR: u32, const CH: u16, T, S: ConstSource<SR, CH, T>> ConstSource<
    SR,
    CH,
    T,
> for QueuedArray<N, SR, CH, S> {
    closed spec fn wf(&self) -> bool {
        &&& ListOfSources::<SR, CH, T>::wf(&self.sources)
        &&& self.current <= N
    }

    closed spec fn remaining(&self) -> Seq<T> {
        ListOfSources::<SR, CH, T>::sources(&self.sources).skip(self.current as int).flatten()
    }

    closed spec fn duration(&self) -> Option<nat> {
        capped(sum_known(ListOfSources::<SR, CH, T>::durations(&self.sources)))
    }

    closed spec fn keeps_duration(&self) -> bool {
        ListOfSources::<SR, CH, T>::keeps_durations(&self.sources)
    }

    fn next(&mut self) -> (r: Option<T>)
        ensures
            old(self).keeps_duration() ==> final(self).keeps_duration() && final(self).duration()
                == old(self).duration(),
            old(self).drained() ==> r is None && *final(self) == *old(self),
            r is None ==> final(self).drained(),
    {
        next_in_order::<SR, CH, T, [S; N]>(&mut self.sources, &mut self.current)
    }

    fn total_duration_nanos(&self) -> (r: Option<u128>) {
        sum_known_durations::<SR, CH, T, [S; N]>(&self.sources)
    }
}

impl<const N: usize, const SR: u32, const CH: u16, T, S: ConstSource<SR, CH, T>> IntoList<
    SR,
    CH,
    T,
> for [S; N] {
    type ListSource = QueuedArray<N, SR, CH, S>;

    fn into_list(self) -> (r: QueuedArray<N, SR, CH, S>)
        ensures
            r.duration() == capped(sum_known(ListOfSources::<SR, CH, T>::durations(&self))),
            r.keeps_duration() == ListOfSources::<SR, CH, T>::keeps_durations(&self),
    {
        let r = QueuedArray { sources: self, current: 0 };
        assert(ListOfSources::<SR, CH, T>::sources(&r.sources).skip(0) =~= ListOfSources::<
            SR,
            CH,
            T,
        >::sources(&r.sources));
        r
    }
}

} // verus!
