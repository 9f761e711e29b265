use vstd::prelude::*;

use crate::const_source::list::IntoList;
use crate::const_source::list_of_sources::ListOfSources;
use crate::const_source::queued::{next_in_order, sum_known_durations};
use crate::const_source::ConstSource;
use crate::duration::{capped, sum_known};

verus! {

/// Plays the sources of a vector one after another.
#[derive(Clone, Debug)]
pub struct QueuedVec<const SR: u32, const CH: u16, S> {
    sources: Vec<S>,
    current: usize,
}

impl<const SR: u32, const CH: u16, S> QueuedVec<SR, CH, S> {
    /// Whether every source has been played to its end; a drained queue
    /// stays as it is and yields nothing more.
    pub closed spec fn drained(&self) -> bool {
        self.current >= self.sources@.len()
    }
}

impl<const SR: u32, const CH: u16, T, S: ConstSource<SR, CH, T>> ConstSource<
    SR,
    CH,
    T,
> for QueuedVec<SR, CH, S> {
    closed spec fn wf(&self) -> bool {
        &&& ListOfSources::<SR, CH, T>::wf(&self.sources)
        &&& self.current <= self.sources@.len()
    }

    closed spec fn remaining(&self) -> Seq<T> {
        ListOfSources::<SR, CH, T>::sources(&self.sources).skip(self.current as int).flatten()
    }

    closed spec fn duration(&self) -> Option<nat> {
        capped(sum_known(ListOfSources::<SR, CH, T>::durations(&self.sources)))
    }

    closed spec fn keeps_duration(&self) -> bool {
        ListOfSources::<SR, CH, T>::keeps_durations(&self.sources)
    }

    fn next(&mut self) -> (r: Option<T>)
        ensures
            old(self).keeps_duration() ==> final(self).keeps_duration() && final(self).duration()
                == old(self).duration(),
            old(self).drained() ==> r is None && *final(self) == *old(self),
            r is None ==> final(self).drained(),
    {
        next_in_order::<SR, CH, T, Vec<S>>(&mut self.sources, &mut self.current)
    }

    fn total_duration_nanos(&self) -> (r: Option<u128>) {
        sum_known_durations::<SR, CH, T, Vec<S>>(&self.sources)
    }
}

impl<const SR: u32, const CH: u16, T, S: ConstSource<SR, CH, T>> IntoList<
    SR,
    CH,
    T,
> for Vec<S> {
    type ListSource = QueuedVec<SR, CH, S>;

    fn into_list(self) -> (r: QueuedVec<SR, CH, S>)
        ensures
            r.duration() == capped(sum_known(ListOfSources::<SR, CH, T>::durations(&self))),
            r.keeps_duration() == ListOfSources::<SR, CH, T>::keeps_durations(&self),
    {
        let r = QueuedVec { sources: self, current: 0 };
        assert(ListOfSources::<SR, CH, T>::sources(&r.sources).skip(0) =~= ListOfSources::<
            SR,
            CH,
            T,
        >::sources(&r.sources));
        r
    }
}

} // verus!
