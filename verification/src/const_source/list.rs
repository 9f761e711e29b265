use vstd::prelude::*;

use crate::const_source::list_of_sources::ListOfSources;
use crate::const_source::queued::{IntoQueued, Queued};
use crate::const_source::ConstSource;
use crate::duration::{capped, sum_all_known};

verus! {

/// Turns a collection of sources into one source that plays them one after
/// another.
pub trait IntoList<const SR: u32, const CH: u16, T>: ListOfSources<SR, CH, T> {
    type ListSource: ConstSource<SR, CH, T>;

    fn into_list(self) -> (r: Self::ListSource)
        requires
            self.wf(),
        ensures
            r.wf(),
            r.remaining() == self.sources().flatten(),
    ;
}

impl<
    const SR: u32,
    const CH: u16,
    T,
    S1: ConstSource<SR, CH, T>,
    S2: ConstSource<SR, CH, T>,
> IntoList<SR, CH, T> for (S1, S2) {
    type ListSource = Queued<SR, CH, (S1, S2)>;

    fn into_list(self) -> (r: Queued<SR, CH, (S1, S2)>)
        ensures
            r.duration() == capped(sum_all_known(self.durations())),
            r.keeps_duration() == self.keeps_durations(),
    {
        self.into_queued()
    }
}

impl<
    const SR: u32,
    const CH: u16,
    T,
    S1: ConstSource<SR, CH, T>,
    S2: ConstSource<SR, CH, T>,
    S3: ConstSource<SR, CH, T>,
> IntoList<SR, CH, T> for (S1, S2, S3) {
    type ListSource = Queued<SR, CH, (S1, S2, S3)>;

    fn into_list(self) -> (r: Queued<SR, CH, (S1, S2, S3)>)
        ensures
            r.duration() == capped(sum_all_known(self.durations())),
            r.keeps_duration() == self.keeps_durations(),
    {
        self.into_queued()
    }
}

impl<
    const SR: u32,
    const CH: u16,
    T,
    S1: ConstSource<SR, CH, T>,
    S2: ConstSource<SR, CH, T>,
    S3: ConstSource<SR, CH, T>,
    S4: ConstSource<SR, CH, T>,
> IntoList<SR, CH, T> for (S1, S2, S3, S4) {
    type ListSource = Queued<SR, CH, (S1, S2, S3, S4)>;

    fn into_list(self) -> (r: Queued<SR, CH, (S1, S2, S3, S4)>)
        ensures
            r.duration() == capped(sum_all_known(self.durations())),
            r.keeps_duration() == self.keeps_durations(),
    {
        self.into_queued()
    }
}

impl<
    const SR: u32,
    const CH: u16,
    T,
    S1: ConstSource<SR, CH, T>,
    S2: ConstSource<SR, CH, T>,
    S3: ConstSource<SR, CH, T>,
    S4: ConstSource<SR, CH, T>,
    S5: ConstSource<SR, CH, T>,
> IntoList<SR, CH, T> for (S1, S2, S3, S4, S5) {
    type ListSource = Queued<SR, CH, (S1, S2, S3, S4, S5)>;

    fn into_list(self) -> (r: Queued<SR, CH, (S1, S2, S3, S4, S5)>)
        ensures
            r.duration() == capped(sum_all_known(self.durations())),
            r.keeps_duration() == self.keeps_durations(),
    {
        self.into_queued()
    }
}

impl<
    const SR: u32,
    const CH: u16,
    T,
    S1: ConstSource<SR, CH, T>,
    S2: ConstSource<SR, CH, T>,
    S3: ConstSource<SR, CH, T>,
    S4: ConstSource<SR, CH, T>,
    S5: ConstSource<SR, CH, T>,
    S6: ConstSource<SR, CH, T>,
> IntoList<SR, CH, T> for (S1, S2, S3, S4, S5, S6) {
    type ListSource = Queued<SR, CH, (S1, S2, S3, S4, S5, S6)>;

    fn into_list(self) -> (r: Queued<SR, CH, (S1, S2, S3, S4, S5, S6)>)
        ensures
            r.duration() == capped(sum_all_known(self.durations())),
            r.keeps_duration() == self.keeps_durations(),
    {
        self.into_queued()
    }
}

impl<
    const SR: u32,
    const CH: u16,
    T,
    S1: ConstSource<SR, CH, T>,
    S2: ConstSource<SR, CH, T>,
    S3: ConstSource<SR, CH, T>,
    S4: ConstSource<SR, CH, T>,
    S5: ConstSource<SR, CH, T>,
    S6: ConstSource<SR, CH, T>,
    S7: ConstSource<SR, CH, T>,
> IntoList<SR, CH, T> for (S1, S2, S3, S4, S5, S6, S7) {
    type ListSource = Queued<SR, CH, (S1, S2, S3, S4, S5, S6, S7)>;

    fn into_list(self) -> (r: Queued<SR, CH, (S1, S2, S3, S4, S5, S6, S7)>)
        ensures
            r.duration() == capped(sum_all_known(self.durations())),
            r.keeps_duration() == self.keeps_durations(),
    {
        self.into_queued()
    }
}

impl<
    const SR: u32,
    const CH: u16,
    T,
    S1: ConstSource<SR, CH, T>,
    S2: ConstSource<SR, CH, T>,
    S3: ConstSource<SR, CH, T>,
    S4: ConstSource<SR, CH, T>,
    S5: ConstSource<SR, CH, T>,
    S6: ConstSource<SR, CH, T>,
    S7: ConstSource<SR, CH, T>,
    S8: ConstSource<SR, CH, T>,
> IntoList<SR, CH, T> for (S1, S2, S3, S4, S5, S6, S7, S8) {
    type ListSource = Queued<SR, CH, (S1, S2, S3, S4, S5, S6, S7, S8)>;

    fn into_list(self) -> (r: Queued<SR, CH, (S1, S2, S3, S4, S5, S6, S7, S8)>)
        ensures
            r.duration() == capped(sum_all_known(self.durations())),
            r.keeps_duration() == self.keeps_durations(),
    {
        self.into_queued()
    }
}

impl<
    const SR: u32,
    const CH: u16,
    T,
    S1: ConstSource<SR, CH, T>,
    S2: ConstSource<SR, CH, T>,
    S3: ConstSource<SR, CH, T>,
    S4: ConstSource<SR, CH, T>,
    S5: ConstSource<SR, CH, T>,
    S6: ConstSource<SR, CH, T>,
    S7: ConstSource<SR, CH, T>,
    S8: ConstSource<SR, CH, T>,
    S9: ConstSource<SR, CH, T>,
> IntoList<SR, CH, T> for (S1, S2, S3, S4, S5, S6, S7, S8, S9) {
    type ListSource = Queued<SR, CH, (S1, S2, S3, S4, S5, S6, S7, S8, S9)>;

    fn into_list(self) -> (r: Queued<SR, CH, (S1, S2, S3, S4, S5, S6, S7, S8, S9)>)
        ensures
            r.duration() == capped(sum_all_known(self.durations())),
            r.keeps_duration() == self.keeps_durations(),
    {
        self.into_queued()
    }
}

impl<
    const SR: u32,
    const CH: u16,
    T,
    S1: ConstSource<SR, CH, T>,
    S2: ConstSource<SR, CH, T>,
    S3: ConstSource<SR, CH, T>,
    S4: ConstSource<SR, CH, T>,
    S5: ConstSource<SR, CH, T>,
    S6: ConstSource<SR, CH, T>,
    S7: ConstSource<SR, CH, T>,
    S8: ConstSource<SR, CH, T>,
    S9: ConstSource<SR, CH, T>,
    S10: ConstSource<SR, CH, T>,
> IntoList<SR, CH, T> for (S1, S2, S3, S4, S5, S6, S7, S8, S9, S10) {
    type ListSource = Queued<SR, CH, (S1, S2, S3, S4, S5, S6, S7, S8, S9, S10)>;

    fn into_list(self) -> (r: Queued<SR, CH, (S1, S2, S3, S4, S5, S6, S7, S8, S9, S10)>)
        ensures
            r.duration() == capped(sum_all_known(self.durations())),
            r.keeps_duration() == self.keeps_durations(),
    {
        self.into_queued()
    }
}

impl<
    const SR: u32,
    const CH: u16,
    T,
    S1: ConstSource<SR, CH, T>,
    S2: ConstSource<SR, CH, T>,
    S3: ConstSource<SR, CH, T>,
    S4: ConstSource<SR, CH, T>,
    S5: ConstSource<SR, CH, T>,
    S6: ConstSource<SR, CH, T>,
    S7: ConstSource<SR, CH, T>,
    S8: ConstSource<SR, CH, T>,
    S9: ConstSource<SR, CH, T>,
    S10: ConstSource<SR, CH, T>,
    S11: ConstSource<SR, CH, T>,
> IntoList<SR, CH, T> for (S1, S2, S3, S4, S5, S6, S7, S8, S9, S10, S11) {
    type ListSource = Queued<SR, CH, (S1, S2, S3, S4, S5, S6, S7, S8, S9, S10, S11)>;

    fn into_list(self) -> (r: Queued<SR, CH, (S1, S2, S3, S4, S5, S6, S7, S8, S9, S10, S11)>)
        ensures
            r.duration() == capped(sum_all_known(self.durations())),
            r.keeps_duration() == self.keeps_durations(),
    {
        self.into_queued()
    }
}

impl<
    const SR: u32,
    const CH: u16,
    T,
    S1: ConstSource<SR, CH, T>,
    S2: ConstSource<SR, CH, T>,
    S3: ConstSource<SR, CH, T>,
    S4: ConstSource<SR, CH, T>,
    S5: ConstSource<SR, CH, T>,
    S6: ConstSource<SR, CH, T>,
    S7: ConstSource<SR, CH, T>,
    S8: ConstSource<SR, CH, T>,
    S9: ConstSource<SR, CH, T>,
    S10: ConstSource<SR, CH, T>,
    S11: ConstSource<SR, CH, T>,
    S12: ConstSource<SR, CH, T>,
> IntoList<SR, CH, T> for (S1, S2, S3, S4, S5, S6, S7, S8, S9, S10, S11, S12) {
    type ListSource = Queued<SR, CH, (S1, S2, S3, S4, S5, S6, S7, S8, S9, S10, S11, S12)>;

    fn into_list(self) -> (r: Queued<SR, CH, (S1, S2, S3, S4, S5, S6, S7, S8, S9, S10, S11, S12)>)
        ensures
            r.duration() == capped(sum_all_known(self.durations())),
            r.keeps_duration() == self.keeps_durations(),
    {
        self.into_queued()
    }
}

} // verus!
