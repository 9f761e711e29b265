use std::time::Duration;
use vstd::prelude::*;

use crate::const_source::list_of_sources::ListOfSources;
use crate::const_source::ConstSource;
use crate::duration::{
    duration_from_opt, duration_of, fits_duration, max_all_known, max_all_known_step, opt_nat,
};

pub mod vec;

verus! {

/// The first samples of the sources that still have one, in source order.
pub open spec fn present_heads<T>(s: Seq<Seq<T>>) -> Seq<T>
    decreases s.len(),
{
    if s.len() == 0 {
        Seq::empty()
    } else if s.last().len() > 0 {
        present_heads(s.drop_last()).push(s.last()[0])
    } else {
        present_heads(s.drop_last())
    }
}

/// Whether some source still has a sample.
pub open spec fn any_present<T>(s: Seq<Seq<T>>) -> bool {
    exists|i: int| 0 <= i < s.len() && #[trigger] s[i].len() > 0
}

/// A source that had samples lost exactly its first one.
pub open spec fn all_advanced<T>(before: Seq<Seq<T>>, after: Seq<Seq<T>>) -> bool {
    &&& after.len() == before.len()
    &&& forall|i: int|
        0 <= i < before.len() && before[i].len() > 0 ==> #[trigger] after[i] == before[i].drop_first()
}

/// Asks every source of a list for its next sample and collects the samples
/// that came, in source order; `None` when no source had one.
pub(crate) fn next_present<const SR: u32, const CH: u16, T, L: ListOfSources<SR, CH, T>>(
    list: &mut L,
) -> (r: Option<Vec<T>>)
    requires
        old(list).wf(),
    ensures
        final(list).wf(),
        all_advanced(old(list).sources(), final(list).sources()),
        any_present(old(list).sources()) <==> r is Some,
        r matches Some(v) ==> v@ == present_heads(old(list).sources()),
        old(list).keeps_durations() ==> final(list).keeps_durations() && final(list).durations()
            == old(list).durations(),
{
    let n = list.len();
    let ghost start = list.sources();
    let mut out: Vec<T> = Vec::new();
    let mut i: usize = 0;
    assert(start.take(0) =~= Seq::<Seq<T>>::empty());
    while i < n
        invariant
            list.wf(),
            n == list.sources().len(),
            start == old(list).sources(),
            start.len() == n,
            old(list).keeps_durations() ==> list.keeps_durations() && list.durations() == old(
                list,
            ).durations(),
            i <= n,
            out@ == present_heads(start.take(i as int)),
            forall|j: int| i <= j < n ==> #[trigger] list.sources()[j] == start[j],
            forall|j: int|
                0 <= j < i && start[j].len() > 0 ==> #[trigger] list.sources()[j]
                    == start[j].drop_first(),
            (out@.len() > 0) <==> (exists|j: int| 0 <= j < i && #[trigger] start[j].len() > 0),
        decreases n - i,
    {
        let ghost before = list.sources();
        let r = list.next(i);
        assert(start.take(i + 1).drop_last() =~= start.take(i as int));
        match r {
            Some(s) => {
                out.push(s);
            },
            None => {},
        }
        assert(forall|j: int| 0 <= j < n && j != i ==> list.sources()[j] == before[j]);
        i = i + 1;
    }
    assert(start.take(n as int) =~= start);
    if out.len() == 0 {
        None
    } else {
        Some(out)
    }
}

/// Plays the sources of a list at the same time.
///
/// Each step takes the next sample of every source that still has one; the
/// samples of one step are combined (averaged) by the caller.
pub struct Mixed<const SR: u32, const CH: u16, L> {
    inner: L,
}

impl<const SR: u32, const CH: u16, L> Mixed<SR, CH, L> {
    /// The list being mixed.
    pub closed spec fn list(&self) -> L {
        self.inner
    }
}

impl<const SR: u32, const CH: u16, L> Mixed<SR, CH, L> {
    /// The samples of the next step, one per source that still has one, in
    /// source order; `None` once every source has run out.
    pub fn next_samples<T>(&mut self) -> (r: Option<Vec<T>>)
        where
            L: ListOfSources<SR, CH, T>,
        requires
            old(self).list().wf(),
        ensures
            final(self).list().wf(),
            all_advanced(old(self).list().sources(), final(self).list().sources()),
            any_present(old(self).list().sources()) <==> r is Some,
            r matches Some(v) ==> v@ == present_heads(old(self).list().sources()),
            old(self).list().keeps_durations() ==> {
                &&& final(self).list().keeps_durations()
                &&& final(self).list().durations() == old(self).list().durations()
            },
    {
        next_present::<SR, CH, T, L>(&mut self.inner)
    }

    /// Longest duration of the sources in nanoseconds; `None` when one of them
    /// is unknown.
    pub fn total_duration_nanos<T>(&self) -> (r: Option<u128>)
        where
            L: ListOfSources<SR, CH, T>,
        requires
            self.list().wf(),
        ensures
            opt_nat(r) == max_all_known(self.list().durations()),
            fits_duration(opt_nat(r)),
    {
        let n = self.inner.len();
        let ghost ds = self.inner.durations();
        let mut acc: Option<u128> = Some(0);
        let mut i: usize = 0;
        assert(ds.take(0) =~= Seq::<Option<nat>>::empty());
        while i < n
            invariant
                n == ds.len(),
                n == self.inner.sources().len(),
                ds == self.inner.durations(),
                self.inner.wf(),
                i <= n,
                opt_nat(acc) == max_all_known(ds.take(i as int)),
                fits_duration(opt_nat(acc)),
            decreases n - i,
        {
            let d = self.inner.total_duration(i);
            acc = max_all_known_step(acc, d, Ghost(ds.take(i as int)));
            assert(ds.take(i as int).push(ds[i as int]) =~= ds.take(i + 1));
            i = i + 1;
        }
        assert(ds.take(n as int) =~= ds);
        acc
    }

    /// Longest duration of the sources; `None` when one of them is unknown.
    pub fn total_duration<T>(&self) -> (r: Option<Duration>)
        where
            L: ListOfSources<SR, CH, T>,
        requires
            self.list().wf(),
        ensures
            r == duration_of(max_all_known(self.list().durations())),
    {
        duration_from_opt(self.total_duration_nanos::<T>())
    }

    /// Sample rate of the mix.
    pub fn sample_rate(&self) -> (r: u32)
        ensures
            r == SR,
    {
        SR
    }

    /// Channel count of the mix.
    pub fn channels(&self) -> (r: u16)
        ensures
            r == CH,
    {
        CH
    }
}

/// Turns a collection of sources into a mix of them.
pub trait IntoMixed<const SR: u32, const CH: u16, T> {
    type MixedSource;

    fn into_mixed(self) -> Self::MixedSource;
}

impl<const N: usize, const SR: u32, const CH: u16, T, S: ConstSource<SR, CH, T>> IntoMixed<
    SR,
    CH,
    T,
> for [S; N] {
    type MixedSource = Mixed<SR, CH, [S; N]>;

    fn into_mixed(self) -> (r: Mixed<SR, CH, [S; N]>)
        ensures
            r.list() == self,
    {
        Mixed { inner: self }
    }
}

impl<
    const SR: u32,
    const CH: u16,
    T,
    S1: ConstSource<SR, CH, T>,
    S2: ConstSource<SR, CH, T>,
> IntoMixed<SR, CH, T> for (S1, S2) {
    type MixedSource = Mixed<SR, CH, (S1, S2)>;

    fn into_mixed(self) -> (r: Mixed<SR, CH, (S1, S2)>)
        ensures
            r.list() == self,
    {
        Mixed { inner: self }
    }
}

impl<
    const SR: u32,
    const CH: u16,
    T,
    S1: ConstSource<SR, CH, T>,
    S2: ConstSource<SR, CH, T>,
    S3: ConstSource<SR, CH, T>,
> IntoMixed<SR, CH, T> for (S1, S2, S3) {
    type MixedSource = Mixed<SR, CH, (S1, S2, S3)>;

    fn into_mixed(self) -> (r: Mixed<SR, CH, (S1, S2, S3)>)
        ensures
            r.list() == self,
    {
        Mixed { inner: self }
    }
}

impl<
    const SR: u32,
    const CH: u16,
    T,
    S1: ConstSource<SR, CH, T>,
    S2: ConstSource<SR, CH, T>,
    S3: ConstSource<SR, CH, T>,
    S4: ConstSource<SR, CH, T>,
> IntoMixed<SR, CH, T> for (S1, S2, S3, S4) {
    type MixedSource = Mixed<SR, CH, (S1, S2, S3, S4)>;

    fn into_mixed(self) -> (r: Mixed<SR, CH, (S1, S2, S3, S4)>)
        ensures
            r.list() == self,
    {
        Mixed { inner: self }
    }
}

impl<
    const SR: u32,
    const CH: u16,
    T,
    S1: ConstSource<SR, CH, T>,
    S2: ConstSource<SR, CH, T>,
    S3: ConstSource<SR, CH, T>,
    S4: ConstSource<SR, CH, T>,
    S5: ConstSource<SR, CH, T>,
> IntoMixed<SR, CH, T> for (S1, S2, S3, S4, S5) {
    type MixedSource = Mixed<SR, CH, (S1, S2, S3, S4, S5)>;

    fn into_mixed(self) -> (r: Mixed<SR, CH, (S1, S2, S3, S4, S5)>)
        ensures
            r.list() == self,
    {
        Mixed { inner: self }
    }
}

impl<
    const SR: u32,
    const CH: u16,
    T,
    S1: ConstSource<SR, CH, T>,
    S2: ConstSource<SR, CH, T>,
    S3: ConstSource<SR, CH, T>,
    S4: ConstSource<SR, CH, T>,
    S5: ConstSource<SR, CH, T>,
    S6: ConstSource<SR, CH, T>,
> IntoMixed<SR, CH, T> for (S1, S2, S3, S4, S5, S6) {
    type MixedSource = Mixed<SR, CH, (S1, S2, S3, S4, S5, S6)>;

    fn into_mixed(self) -> (r: Mixed<SR, CH, (S1, S2, S3, S4, S5, S6)>)
        ensures
            r.list() == self,
    {
        Mixed { inner: self }
    }
}

impl<
    const SR: u32,
    const CH: u16,
    T,
    S1: ConstSource<SR, CH, T>,
    S2: ConstSource<SR, CH, T>,
    S3: ConstSource<SR, CH, T>,
    S4: ConstSource<SR, CH, T>,
    S5: ConstSource<SR, CH, T>,
    S6: ConstSource<SR, CH, T>,
    S7: ConstSource<SR, CH, T>,
> IntoMixed<SR, CH, T> for (S1, S2, S3, S4, S5, S6, S7) {
    type MixedSource = Mixed<SR, CH, (S1, S2, S3, S4, S5, S6, S7)>;

    fn into_mixed(self) -> (r: Mixed<SR, CH, (S1, S2, S3, S4, S5, S6, S7)>)
        ensures
            r.list() == self,
    {
        Mixed { inner: self }
    }
}

impl<
    const SR: u32,
    const CH: u16,
    T,
    S1: ConstSource<SR, CH, T>,
    S2: ConstSource<SR, CH, T>,
    S3: ConstSource<SR, CH, T>,
    S4: ConstSource<SR, CH, T>,
    S5: ConstSource<SR, CH, T>,
    S6: ConstSource<SR, CH, T>,
    S7: ConstSource<SR, CH, T>,
    S8: ConstSource<SR, CH, T>,
> IntoMixed<SR, CH, T> for (S1, S2, S3, S4, S5, S6, S7, S8) {
    type MixedSource = Mixed<SR, CH, (S1, S2, S3, S4, S5, S6, S7, S8)>;

    fn into_mixed(self) -> (r: Mixed<SR, CH, (S1, S2, S3, S4, S5, S6, S7, S8)>)
        ensures
            r.list() == self,
    {
        Mixed { inner: self }
    }
}

impl<
    const SR: u32,
    const CH: u16,
    T,
    S1: ConstSource<SR, CH, T>,
    S2: ConstSource<SR, CH, T>,
    S3: ConstSource<SR, CH, T>,
    S4: ConstSource<SR, CH, T>,
    S5: ConstSource<SR, CH, T>,
    S6: ConstSource<SR, CH, T>,
    S7: ConstSource<SR, CH, T>,
    S8: ConstSource<SR, CH, T>,
    S9: ConstSource<SR, CH, T>,
> IntoMixed<SR, CH, T> for (S1, S2, S3, S4, S5, S6, S7, S8, S9) {
    type MixedSource = Mixed<SR, CH, (S1, S2, S3, S4, S5, S6, S7, S8, S9)>;

    fn into_mixed(self) -> (r: Mixed<SR, CH, (S1, S2, S3, S4, S5, S6, S7, S8, S9)>)
        ensures
            r.list() == self,
    {
        Mixed { inner: self }
    }
}

impl<
    const SR: u32,
    const CH: u16,
    T,
    S1: ConstSource<SR, CH, T>,
    S2: ConstSource<SR, CH, T>,
    S3: ConstSource<SR, CH, T>,
    S4: ConstSource<SR, CH, T>,
    S5: ConstSource<SR, CH, T>,
    S6: ConstSource<SR, CH, T>,
    S7: ConstSource<SR, CH, T>,
    S8: ConstSource<SR, CH, T>,
    S9: ConstSource<SR, CH, T>,
    S10: ConstSource<SR, CH, T>,
> IntoMixed<SR, CH, T> for (S1, S2, S3, S4, S5, S6, S7, S8, S9, S10) {
    type MixedSource = Mixed<SR, CH, (S1, S2, S3, S4, S5, S6, S7, S8, S9, S10)>;

    fn into_mixed(self) -> (r: Mixed<SR, CH, (S1, S2, S3, S4, S5, S6, S7, S8, S9, S10)>)
        ensures
            r.list() == self,
    {
        Mixed { inner: self }
    }
}

impl<
    const SR: u32,
    const CH: u16,
    T,
    S1: ConstSource<SR, CH, T>,
    S2: ConstSource<SR, CH, T>,
    S3: ConstSource<SR, CH, T>,
    S4: ConstSource<SR, CH, T>,
    S5: ConstSource<SR, CH, T>,
    S6: ConstSource<SR, CH, T>,
    S7: ConstSource<SR, CH, T>,
    S8: ConstSource<SR, CH, T>,
    S9: ConstSource<SR, CH, T>,
    S10: ConstSource<SR, CH, T>,
    S11: ConstSource<SR, CH, T>,
> IntoMixed<SR, CH, T> for (S1, S2, S3, S4, S5, S6, S7, S8, S9, S10, S11) {
    type MixedSource = Mixed<SR, CH, (S1, S2, S3, S4, S5, S6, S7, S8, S9, S10, S11)>;

    fn into_mixed(self) -> (r: Mixed<SR, CH, (S1, S2, S3, S4, S5, S6, S7, S8, S9, S10, S11)>)
        ensures
            r.list() == self,
    {
        Mixed { inner: self }
    }
}

impl<
    const SR: u32,
    const CH: u16,
    T,
    S1: ConstSource<SR, CH, T>,
    S2: ConstSource<SR, CH, T>,
    S3: ConstSource<SR, CH, T>,
    S4: ConstSource<SR, CH, T>,
    S5: ConstSource<SR, CH, T>,
    S6: ConstSource<SR, CH, T>,
    S7: ConstSource<SR, CH, T>,
    S8: ConstSource<SR, CH, T>,
    S9: ConstSource<SR, CH, T>,
    S10: ConstSource<SR, CH, T>,
    S11: ConstSource<SR, CH, T>,
    S12: ConstSource<SR, CH, T>,
> IntoMixed<SR, CH, T> for (S1, S2, S3, S4, S5, S6, S7, S8, S9, S10, S11, S12) {
    type MixedSource = Mixed<SR, CH, (S1, S2, S3, S4, S5, S6, S7, S8, S9, S10, S11, S12)>;

    fn into_mixed(self) -> (r: Mixed<SR, CH, (S1, S2, S3, S4, S5, S6, S7, S8, S9, S10, S11, S12)>)
        ensures
            r.list() == self,
    {
        Mixed { inner: self }
    }
}

} // verus!
