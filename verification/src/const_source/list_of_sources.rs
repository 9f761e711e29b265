use vstd::prelude::*;

use crate::const_source::{pops, ConstSource};
use crate::duration::{fits_duration, opt_nat};

verus! {

/// A fixed collection of sources that share sample rate and channel count,
/// addressed by index.
pub trait ListOfSources<const SR: u32, const CH: u16, T>: Sized {
    /// Every source in the collection is well formed.
    spec fn wf(&self) -> bool;

    /// The samples each source still yields, one sequence per source.
    spec fn sources(&self) -> Seq<Seq<T>>;

    /// The duration each source reports, in nanoseconds.
    spec fn durations(&self) -> Seq<Option<nat>>;

    /// Whether every source keeps the duration it reports while it plays.
    open spec fn keeps_durations(&self) -> bool {
        false
    }

    /// Number of sources in the collection.
    fn len(&self) -> (r: usize)
        ensures
            r == self.sources().len(),
            self.durations().len() == self.sources().len(),
    ;

    /// The next sample of the `idx`-th source.
    fn next(&mut self, idx: usize) -> (r: Option<T>)
        requires
            old(self).wf(),
            idx < old(self).sources().len(),
        ensures
            final(self).wf(),
            final(self).sources().len() == old(self).sources().len(),
            final(self).durations().len() == old(self).durations().len(),
            pops(old(self).sources()[idx as int], final(self).sources()[idx as int], r),
            final(self).sources() == old(self).sources().update(idx as int, final(self).sources()[idx as int]),
            forall|j: int| 0 <= j < old(self).durations().len() && j != idx
                ==> final(self).durations()[j] == old(self).durations()[j],
            old(self).keeps_durations() ==> final(self).keeps_durations()
                && final(self).durations() == old(self).durations(),
    ;

    /// The total duration of the `idx`-th source in nanoseconds.
    fn total_duration(&self, idx: usize) -> (r: Option<u128>)
        requires
            self.wf(),
            idx < self.sources().len(),
        ensures
            self.durations().len() == self.sources().len(),
            opt_nat(r) == self.durations()[idx as int],
            fits_duration(self.durations()[idx as int]),
    ;

    /// Channel count of the `idx`-th source.
    fn channels(&self, idx: usize) -> (r: u16)
        ensures
            r == CH,
    {
        CH
    }

    /// Sample rate of the `idx`-th source.
    fn sample_rate(&self, idx: usize) -> (r: u32)
        ensures
            r == SR,
    {
        SR
    }
}

impl<const N: usize, const SR: u32, const CH: u16, T, S: ConstSource<SR, CH, T>> ListOfSources<
    SR,
    CH,
    T,
> for [S; N] {
    open spec fn wf(&self) -> bool {
        forall|i: int| 0 <= i < N ==> #[trigger] self@[i].wf()
    }

    open spec fn sources(&self) -> Seq<Seq<T>> {
        Seq::new(N as nat, |i: int| self@[i].remaining())
    }

    open spec fn durations(&self) -> Seq<Option<nat>> {
        Seq::new(N as nat, |i: int| self@[i].duration())
    }

    open spec fn keeps_durations(&self) -> bool {
        forall|i: int| 0 <= i < N ==> #[trigger] self@[i].keeps_duration()
    }

    fn len(&self) -> (r: usize) {
        N
    }

    fn next(&mut self, idx: usize) -> (r: Option<T>) {
        let r = self[idx].next();
        assert(self.sources() =~= old(self).sources().update(idx as int, self.sources()[idx as int]));
        assert(old(self).keeps_durations() ==> self.durations() =~= old(self).durations());
        r
    }

    fn total_duration(&self, idx: usize) -> (r: Option<u128>) {
        self[idx].total_duration_nanos()
    }
}

impl<const SR: u32, const CH: u16, T, S: ConstSource<SR, CH, T>> ListOfSources<SR, CH, T> for Vec<
    S,
> {
    open spec fn wf(&self) -> bool {
        forall|i: int| 0 <= i < self@.len() ==> #[trigger] self@[i].wf()
    }

    open spec fn sources(&self) -> Seq<Seq<T>> {
        Seq::new(self@.len(), |i: int| self@[i].remaining())
    }

    open spec fn durations(&self) -> Seq<Option<nat>> {
        Seq::new(self@.len(), |i: int| self@[i].duration())
    }

    open spec fn keeps_durations(&self) -> bool {
        forall|i: int| 0 <= i < self@.len() ==> #[trigger] self@[i].keeps_duration()
    }

    fn len(&self) -> (r: usize) {
        self.len()
    }

    fn next(&mut self, idx: usize) -> (r: Option<T>) {
        let r = self[idx].next();
        assert(self.sources() =~= old(self).sources().update(idx as int, self.sources()[idx as int]));
        assert(old(self).keeps_durations() ==> self.durations() =~= old(self).durations());
        r
    }

    fn total_duration(&self, idx: usize) -> (r: Option<u128>) {
        self[idx].total_duration_nanos()
    }
}

impl<
    const SR: u32,
    const CH: u16,
    T,
    S1: ConstSource<SR, CH, T>,
    S2: ConstSource<SR, CH, T>,
> ListOfSources<SR, CH, T> for (S1, S2) {
    open spec fn wf(&self) -> bool {
        &&& self.0.wf()
        &&& self.1.wf()
    }

    open spec fn sources(&self) -> Seq<Seq<T>> {
        seq![self.0.remaining(), self.1.remaining()]
    }

    open spec fn durations(&self) -> Seq<Option<nat>> {
        seq![self.0.duration(), self.1.duration()]
    }

    open spec fn keeps_durations(&self) -> bool {
        &&& self.0.keeps_duration()
        &&& self.1.keeps_duration()
    }

    fn len(&self) -> (r: usize) {
        2
    }

    fn next(&mut self, idx: usize) -> (r: Option<T>) {
        let r = if idx == 0 {
            self.0.next()
        } else {
            self.1.next()
        };
        assert(self.sources() =~= old(self).sources().update(idx as int, self.sources()[idx as int]));
        assert(old(self).keeps_durations() ==> self.durations() =~= old(self).durations());
        r
    }

    fn total_duration(&self, idx: usize) -> (r: Option<u128>) {
        if idx == 0 {
            self.0.total_duration_nanos()
        } else {
            self.1.total_duration_nanos()
        }
    }
}

impl<
    const SR: u32,
    const CH: u16,
    T,
    S1: ConstSource<SR, CH, T>,
    S2: ConstSource<SR, CH, T>,
    S3: ConstSource<SR, CH, T>,
> ListOfSources<SR, CH, T> for (S1, S2, S3) {
    open spec fn wf(&self) -> bool {
        &&& self.0.wf()
        &&& self.1.wf()
        &&& self.2.wf()
    }

    open spec fn sources(&self) -> Seq<Seq<T>> {
        seq![self.0.remaining(), self.1.remaining(), self.2.remaining()]
    }

    open spec fn durations(&self) -> Seq<Option<nat>> {
        seq![self.0.duration(), self.1.duration(), self.2.duration()]
    }

    open spec fn keeps_durations(&self) -> bool {
        &&& self.0.keeps_duration()
        &&& self.1.keeps_duration()
        &&& self.2.keeps_duration()
    }

    fn len(&self) -> (r: usize) {
        3
    }

    fn next(&mut self, idx: usize) -> (r: Option<T>) {
        let r = if idx == 0 {
            self.0.next()
        } else if idx == 1 {
            self.1.next()
        } else {
            self.2.next()
        };
        assert(self.sources() =~= old(self).sources().update(idx as int, self.sources()[idx as int]));
        assert(old(self).keeps_durations() ==> self.durations() =~= old(self).durations());
        r
    }

    fn total_duration(&self, idx: usize) -> (r: Option<u128>) {
        if idx == 0 {
            self.0.total_duration_nanos()
        } else if idx == 1 {
            self.1.total_duration_nanos()
        } else {
            self.2.total_duration_nanos()
        }
    }
}

impl<
    const SR: u32,
    const CH: u16,
    T,
    S1: ConstSource<SR, CH, T>,
    S2: ConstSource<SR, CH, T>,
    S3: ConstSource<SR, CH, T>,
    S4: ConstSource<SR, CH, T>,
> ListOfSources<SR, CH, T> for (S1, S2, S3, S4) {
    open spec fn wf(&self) -> bool {
        &&& self.0.wf()
        &&& self.1.wf()
        &&& self.2.wf()
        &&& self.3.wf()
    }

    open spec fn sources(&self) -> Seq<Seq<T>> {
        seq![self.0.remaining(), self.1.remaining(), self.2.remaining(), self.3.remaining()]
    }

    open spec fn durations(&self) -> Seq<Option<nat>> {
        seq![self.0.duration(), self.1.duration(), self.2.duration(), self.3.duration()]
    }

    open spec fn keeps_durations(&self) -> bool {
        &&& self.0.keeps_duration()
        &&& self.1.keeps_duration()
        &&& self.2.keeps_duration()
        &&& self.3.keeps_duration()
    }

    fn len(&self) -> (r: usize) {
        4
    }

    fn next(&mut self, idx: usize) -> (r: Option<T>) {
        let r = if idx == 0 {
            self.0.next()
        } else if idx == 1 {
            self.1.next()
        } else if idx == 2 {
            self.2.next()
        } else {
            self.3.next()
        };
        assert(self.sources() =~= old(self).sources().update(idx as int, self.sources()[idx as int]));
        assert(old(self).keeps_durations() ==> self.durations() =~= old(self).durations());
        r
    }

    fn total_duration(&self, idx: usize) -> (r: Option<u128>) {
        if idx == 0 {
            self.0.total_duration_nanos()
        } else if idx == 1 {
            self.1.total_duration_nanos()
        } else if idx == 2 {
            self.2.total_duration_nanos()
        } else {
            self.3.total_duration_nanos()
        }
    }
}

impl<
    const SR: u32,
    const CH: u16,
    T,
    S1: ConstSource<SR, CH, T>,
    S2: ConstSource<SR, CH, T>,
    S3: ConstSource<SR, CH, T>,
    S4: ConstSource<SR, CH, T>,
    S5: ConstSource<SR, CH, T>,
> ListOfSources<SR, CH, T> for (S1, S2, S3, S4, S5) {
    open spec fn wf(&self) -> bool {
        &&& self.0.wf()
        &&& self.1.wf()
        &&& self.2.wf()
        &&& self.3.wf()
        &&& self.4.wf()
    }

    open spec fn sources(&self) -> Seq<Seq<T>> {
        seq![self.0.remaining(), self.1.remaining(), self.2.remaining(), self.3.remaining(), self.4.remaining()]
    }

    open spec fn durations(&self) -> Seq<Option<nat>> {
        seq![self.0.duration(), self.1.duration(), self.2.duration(), self.3.duration(), self.4.duration()]
    }

    open spec fn keeps_durations(&self) -> bool {
        &&& self.0.keeps_duration()
        &&& self.1.keeps_duration()
        &&& self.2.keeps_duration()
        &&& self.3.keeps_duration()
        &&& self.4.keeps_duration()
    }

    fn len(&self) -> (r: usize) {
        5
    }

    fn next(&mut self, idx: usize) -> (r: Option<T>) {
        let r = if idx == 0 {
            self.0.next()
        } else if idx == 1 {
            self.1.next()
        } else if idx == 2 {
            self.2.next()
        } else if idx == 3 {
            self.3.next()
        } else {
            self.4.next()
        };
        assert(self.sources() =~= old(self).sources().update(idx as int, self.sources()[idx as int]));
        assert(old(self).keeps_durations() ==> self.durations() =~= old(self).durations());
        r
    }

    fn total_duration(&self, idx: usize) -> (r: Option<u128>) {
        if idx == 0 {
            self.0.total_duration_nanos()
        } else if idx == 1 {
            self.1.total_duration_nanos()
        } else if idx == 2 {
            self.2.total_duration_nanos()
        } else if idx == 3 {
            self.3.total_duration_nanos()
        } else {
            self.4.total_duration_nanos()
        }
    }
}

impl<
    const SR: u32,
    const CH: u16,
    T,
    S1: ConstSource<SR, CH, T>,
    S2: ConstSource<SR, CH, T>,
    S3: ConstSource<SR, CH, T>,
    S4: ConstSource<SR, CH, T>,
    S5: ConstSource<SR, CH, T>,
    S6: ConstSource<SR, CH, T>,
> ListOfSources<SR, CH, T> for (S1, S2, S3, S4, S5, S6) {
    open spec fn wf(&self) -> bool {
        &&& self.0.wf()
        &&& self.1.wf()
        &&& self.2.wf()
        &&& self.3.wf()
        &&& self.4.wf()
        &&& self.5.wf()
    }

    open spec fn sources(&self) -> Seq<Seq<T>> {
        seq![self.0.remaining(), self.1.remaining(), self.2.remaining(), self.3.remaining(), self.4.remaining(), self.5.remaining()]
    }

    open spec fn durations(&self) -> Seq<Option<nat>> {
        seq![self.0.duration(), self.1.duration(), self.2.duration(), self.3.duration(), self.4.duration(), self.5.duration()]
    }

    open spec fn keeps_durations(&self) -> bool {
        &&& self.0.keeps_duration()
        &&& self.1.keeps_duration()
        &&& self.2.keeps_duration()
        &&& self.3.keeps_duration()
        &&& self.4.keeps_duration()
        &&& self.5.keeps_duration()
    }

    fn len(&self) -> (r: usize) {
        6
    }

    fn next(&mut self, idx: usize) -> (r: Option<T>) {
        let r = if idx == 0 {
            self.0.next()
        } else if idx == 1 {
            self.1.next()
        } else if idx == 2 {
            self.2.next()
        } else if idx == 3 {
            self.3.next()
        } else if idx == 4 {
            self.4.next()
        } else {
            self.5.next()
        };
        assert(self.sources() =~= old(self).sources().update(idx as int, self.sources()[idx as int]));
        assert(old(self).keeps_durations() ==> self.durations() =~= old(self).durations());
        r
    }

    fn total_duration(&self, idx: usize) -> (r: Option<u128>) {
        if idx == 0 {
            self.0.total_duration_nanos()
        } else if idx == 1 {
            self.1.total_duration_nanos()
        } else if idx == 2 {
            self.2.total_duration_nanos()
        } else if idx == 3 {
            self.3.total_duration_nanos()
        } else if idx == 4 {
            self.4.total_duration_nanos()
        } else {
            self.5.total_duration_nanos()
        }
    }
}

impl<
    const SR: u32,
    const CH: u16,
    T,
    S1: ConstSource<SR, CH, T>,
    S2: ConstSource<SR, CH, T>,
    S3: ConstSource<SR, CH, T>,
    S4: ConstSource<SR, CH, T>,
    S5: ConstSource<SR, CH, T>,
    S6: ConstSource<SR, CH, T>,
    S7: ConstSource<SR, CH, T>,
> ListOfSources<SR, CH, T> for (S1, S2, S3, S4, S5, S6, S7) {
    open spec fn wf(&self) -> bool {
        &&& self.0.wf()
        &&& self.1.wf()
        &&& self.2.wf()
        &&& self.3.wf()
        &&& self.4.wf()
        &&& self.5.wf()
        &&& self.6.wf()
    }

    open spec fn sources(&self) -> Seq<Seq<T>> {
        seq![self.0.remaining(), self.1.remaining(), self.2.remaining(), self.3.remaining(), self.4.remaining(), self.5.remaining(), self.6.remaining()]
    }

    open spec fn durations(&self) -> Seq<Option<nat>> {
        seq![self.0.duration(), self.1.duration(), self.2.duration(), self.3.duration(), self.4.duration(), self.5.duration(), self.6.duration()]
    }

    open spec fn keeps_durations(&self) -> bool {
        &&& self.0.keeps_duration()
        &&& self.1.keeps_duration()
        &&& self.2.keeps_duration()
        &&& self.3.keeps_duration()
        &&& self.4.keeps_duration()
        &&& self.5.keeps_duration()
        &&& self.6.keeps_duration()
    }

    fn len(&self) -> (r: usize) {
        7
    }

    fn next(&mut self, idx: usize) -> (r: Option<T>) {
        let r = if idx == 0 {
            self.0.next()
        } else if idx == 1 {
            self.1.next()
        } else if idx == 2 {
            self.2.next()
        } else if idx == 3 {
            self.3.next()
        } else if idx == 4 {
            self.4.next()
        } else if idx == 5 {
            self.5.next()
        } else {
            self.6.next()
        };
        assert(self.sources() =~= old(self).sources().update(idx as int, self.sources()[idx as int]));
        assert(old(self).keeps_durations() ==> self.durations() =~= old(self).durations());
        r
    }

    fn total_duration(&self, idx: usize) -> (r: Option<u128>) {
        if idx == 0 {
            self.0.total_duration_nanos()
        } else if idx == 1 {
            self.1.total_duration_nanos()
        } else if idx == 2 {
            self.2.total_duration_nanos()
        } else if idx == 3 {
            self.3.total_duration_nanos()
        } else if idx == 4 {
            self.4.total_duration_nanos()
        } else if idx == 5 {
            self.5.total_duration_nanos()
        } else {
            self.6.total_duration_nanos()
        }
    }
}

impl<
    const SR: u32,
    const CH: u16,
    T,
    S1: ConstSource<SR, CH, T>,
    S2: ConstSource<SR, CH, T>,
    S3: ConstSource<SR, CH, T>,
    S4: ConstSource<SR, CH, T>,
    S5: ConstSource<SR, CH, T>,
    S6: ConstSource<SR, CH, T>,
    S7: ConstSource<SR, CH, T>,
    S8: ConstSource<SR, CH, T>,
> ListOfSources<SR, CH, T> for (S1, S2, S3, S4, S5, S6, S7, S8) {
    open spec fn wf(&self) -> bool {
        &&& self.0.wf()
        &&& self.1.wf()
        &&& self.2.wf()
        &&& self.3.wf()
        &&& self.4.wf()
        &&& self.5.wf()
        &&& self.6.wf()
        &&& self.7.wf()
    }

    open spec fn sources(&self) -> Seq<Seq<T>> {
        seq![self.0.remaining(), self.1.remaining(), self.2.remaining(), self.3.remaining(), self.4.remaining(), self.5.remaining(), self.6.remaining(), self.7.remaining()]
    }

    open spec fn durations(&self) -> Seq<Option<nat>> {
        seq![self.0.duration(), self.1.duration(), self.2.duration(), self.3.duration(), self.4.duration(), self.5.duration(), self.6.duration(), self.7.duration()]
    }

    open spec fn keeps_durations(&self) -> bool {
        &&& self.0.keeps_duration()
        &&& self.1.keeps_duration()
        &&& self.2.keeps_duration()
        &&& self.3.keeps_duration()
        &&& self.4.keeps_duration()
        &&& self.5.keeps_duration()
        &&& self.6.keeps_duration()
        &&& self.7.keeps_duration()
    }

    fn len(&self) -> (r: usize) {
        8
    }

    fn next(&mut self, idx: usize) -> (r: Option<T>) {
        let r = if idx == 0 {
            self.0.next()
        } else if idx == 1 {
            self.1.next()
        } else if idx == 2 {
            self.2.next()
        } else if idx == 3 {
            self.3.next()
        } else if idx == 4 {
            self.4.next()
        } else if idx == 5 {
            self.5.next()
        } else if idx == 6 {
            self.6.next()
        } else {
            self.7.next()
        };
        assert(self.sources() =~= old(self).sources().update(idx as int, self.sources()[idx as int]));
        assert(old(self).keeps_durations() ==> self.durations() =~= old(self).durations());
        r
    }

    fn total_duration(&self, idx: usize) -> (r: Option<u128>) {
        if idx == 0 {
            self.0.total_duration_nanos()
        } else if idx == 1 {
            self.1.total_duration_nanos()
        } else if idx == 2 {
            self.2.total_duration_nanos()
        } else if idx == 3 {
            self.3.total_duration_nanos()
        } else if idx == 4 {
            self.4.total_duration_nanos()
        } else if idx == 5 {
            self.5.total_duration_nanos()
        } else if idx == 6 {
            self.6.total_duration_nanos()
        } else {
            self.7.total_duration_nanos()
        }
    }
}

impl<
    const SR: u32,
    const CH: u16,
    T,
    S1: ConstSource<SR, CH, T>,
    S2: ConstSource<SR, CH, T>,
    S3: ConstSource<SR, CH, T>,
    S4: ConstSource<SR, CH, T>,
    S5: ConstSource<SR, CH, T>,
    S6: ConstSource<SR, CH, T>,
    S7: ConstSource<SR, CH, T>,
    S8: ConstSource<SR, CH, T>,
    S9: ConstSource<SR, CH, T>,
> ListOfSources<SR, CH, T> for (S1, S2, S3, S4, S5, S6, S7, S8, S9) {
    open spec fn wf(&self) -> bool {
        &&& self.0.wf()
        &&& self.1.wf()
        &&& self.2.wf()
        &&& self.3.wf()
        &&& self.4.wf()
        &&& self.5.wf()
        &&& self.6.wf()
        &&& self.7.wf()
        &&& self.8.wf()
    }

    open spec fn sources(&self) -> Seq<Seq<T>> {
        seq![self.0.remaining(), self.1.remaining(), self.2.remaining(), self.3.remaining(), self.4.remaining(), self.5.remaining(), self.6.remaining(), self.7.remaining(), self.8.remaining()]
    }

    open spec fn durations(&self) -> Seq<Option<nat>> {
        seq![self.0.duration(), self.1.duration(), self.2.duration(), self.3.duration(), self.4.duration(), self.5.duration(), self.6.duration(), self.7.duration(), self.8.duration()]
    }

    open spec fn keeps_durations(&self) -> bool {
        &&& self.0.keeps_duration()
        &&& self.1.keeps_duration()
        &&& self.2.keeps_duration()
        &&& self.3.keeps_duration()
        &&& self.4.keeps_duration()
        &&& self.5.keeps_duration()
        &&& self.6.keeps_duration()
        &&& self.7.keeps_duration()
        &&& self.8.keeps_duration()
    }

    fn len(&self) -> (r: usize) {
        9
    }

    fn next(&mut self, idx: usize) -> (r: Option<T>) {
        let r = if idx == 0 {
            self.0.next()
        } else if idx == 1 {
            self.1.next()
        } else if idx == 2 {
            self.2.next()
        } else if idx == 3 {
            self.3.next()
        } else if idx == 4 {
            self.4.next()
        } else if idx == 5 {
            self.5.next()
        } else if idx == 6 {
            self.6.next()
        } else if idx == 7 {
            self.7.next()
        } else {
            self.8.next()
        };
        assert(self.sources() =~= old(self).sources().update(idx as int, self.sources()[idx as int]));
        assert(old(self).keeps_durations() ==> self.durations() =~= old(self).durations());
        r
    }

    fn total_duration(&self, idx: usize) -> (r: Option<u128>) {
        if idx == 0 {
            self.0.total_duration_nanos()
        } else if idx == 1 {
            self.1.total_duration_nanos()
        } else if idx == 2 {
            self.2.total_duration_nanos()
        } else if idx == 3 {
            self.3.total_duration_nanos()
        } else if idx == 4 {
            self.4.total_duration_nanos()
        } else if idx == 5 {
            self.5.total_duration_nanos()
        } else if idx == 6 {
            self.6.total_duration_nanos()
        } else if idx == 7 {
            self.7.total_duration_nanos()
        } else {
            self.8.total_duration_nanos()
        }
    }
}

impl<
    const SR: u32,
    const CH: u16,
    T,
    S1: ConstSource<SR, CH, T>,
    S2: ConstSource<SR, CH, T>,
    S3: ConstSource<SR, CH, T>,
    S4: ConstSource<SR, CH, T>,
    S5: ConstSource<SR, CH, T>,
    S6: ConstSource<SR, CH, T>,
    S7: ConstSource<SR, CH, T>,
    S8: ConstSource<SR, CH, T>,
    S9: ConstSource<SR, CH, T>,
    S10: ConstSource<SR, CH, T>,
> ListOfSources<SR, CH, T> for (S1, S2, S3, S4, S5, S6, S7, S8, S9, S10) {
    open spec fn wf(&self) -> bool {
        &&& self.0.wf()
        &&& self.1.wf()
        &&& self.2.wf()
        &&& self.3.wf()
        &&& self.4.wf()
        &&& self.5.wf()
        &&& self.6.wf()
        &&& self.7.wf()
        &&& self.8.wf()
        &&& self.9.wf()
    }

    open spec fn sources(&self) -> Seq<Seq<T>> {
        seq![self.0.remaining(), self.1.remaining(), self.2.remaining(), self.3.remaining(), self.4.remaining(), self.5.remaining(), self.6.remaining(), self.7.remaining(), self.8.remaining(), self.9.remaining()]
    }

    open spec fn durations(&self) -> Seq<Option<nat>> {
        seq![self.0.duration(), self.1.duration(), self.2.duration(), self.3.duration(), self.4.duration(), self.5.duration(), self.6.duration(), self.7.duration(), self.8.duration(), self.9.duration()]
    }

    open spec fn keeps_durations(&self) -> bool {
        &&& self.0.keeps_duration()
        &&& self.1.keeps_duration()
        &&& self.2.keeps_duration()
        &&& self.3.keeps_duration()
        &&& self.4.keeps_duration()
        &&& self.5.keeps_duration()
        &&& self.6.keeps_duration()
        &&& self.7.keeps_duration()
        &&& self.8.keeps_duration()
        &&& self.9.keeps_duration()
    }

    fn len(&self) -> (r: usize) {
        10
    }

    fn next(&mut self, idx: usize) -> (r: Option<T>) {
        let r = if idx == 0 {
            self.0.next()
        } else if idx == 1 {
            self.1.next()
        } else if idx == 2 {
            self.2.next()
        } else if idx == 3 {
            self.3.next()
        } else if idx == 4 {
            self.4.next()
        } else if idx == 5 {
            self.5.next()
        } else if idx == 6 {
            self.6.next()
        } else if idx == 7 {
            self.7.next()
        } else if idx == 8 {
            self.8.next()
        } else {
            self.9.next()
        };
        assert(self.sources() =~= old(self).sources().update(idx as int, self.sources()[idx as int]));
        assert(old(self).keeps_durations() ==> self.durations() =~= old(self).durations());
        r
    }

    fn total_duration(&self, idx: usize) -> (r: Option<u128>) {
        if idx == 0 {
            self.0.total_duration_nanos()
        } else if idx == 1 {
            self.1.total_duration_nanos()
        } else if idx == 2 {
            self.2.total_duration_nanos()
        } else if idx == 3 {
            self.3.total_duration_nanos()
        } else if idx == 4 {
            self.4.total_duration_nanos()
        } else if idx == 5 {
            self.5.total_duration_nanos()
        } else if idx == 6 {
            self.6.total_duration_nanos()
        } else if idx == 7 {
            self.7.total_duration_nanos()
        } else if idx == 8 {
            self.8.total_duration_nanos()
        } else {
            self.9.total_duration_nanos()
        }
    }
}

impl<
    const SR: u32,
    const CH: u16,
    T,
    S1: ConstSource<SR, CH, T>,
    S2: ConstSource<SR, CH, T>,
    S3: ConstSource<SR, CH, T>,
    S4: ConstSource<SR, CH, T>,
    S5: ConstSource<SR, CH, T>,
    S6: ConstSource<SR, CH, T>,
    S7: ConstSource<SR, CH, T>,
    S8: ConstSource<SR, CH, T>,
    S9: ConstSource<SR, CH, T>,
    S10: ConstSource<SR, CH, T>,
    S11: ConstSource<SR, CH, T>,
> ListOfSources<SR, CH, T> for (S1, S2, S3, S4, S5, S6, S7, S8, S9, S10, S11) {
    open spec fn wf(&self) -> bool {
        &&& self.0.wf()
        &&& self.1.wf()
        &&& self.2.wf()
        &&& self.3.wf()
        &&& self.4.wf()
        &&& self.5.wf()
        &&& self.6.wf()
        &&& self.7.wf()
        &&& self.8.wf()
        &&& self.9.wf()
        &&& self.10.wf()
    }

    open spec fn sources(&self) -> Seq<Seq<T>> {
        seq![self.0.remaining(), self.1.remaining(), self.2.remaining(), self.3.remaining(), self.4.remaining(), self.5.remaining(), self.6.remaining(), self.7.remaining(), self.8.remaining(), self.9.remaining(), self.10.remaining()]
    }

    open spec fn durations(&self) -> Seq<Option<nat>> {
        seq![self.0.duration(), self.1.duration(), self.2.duration(), self.3.duration(), self.4.duration(), self.5.duration(), self.6.duration(), self.7.duration(), self.8.duration(), self.9.duration(), self.10.duration()]
    }

    open spec fn keeps_durations(&self) -> bool {
        &&& self.0.keeps_duration()
        &&& self.1.keeps_duration()
        &&& self.2.keeps_duration()
        &&& self.3.keeps_duration()
        &&& self.4.keeps_duration()
        &&& self.5.keeps_duration()
        &&& self.6.keeps_duration()
        &&& self.7.keeps_duration()
        &&& self.8.keeps_duration()
        &&& self.9.keeps_duration()
        &&& self.10.keeps_duration()
    }

    fn len(&self) -> (r: usize) {
        11
    }

    fn next(&mut self, idx: usize) -> (r: Option<T>) {
        let r = if idx == 0 {
            self.0.next()
        } else if idx == 1 {
            self.1.next()
        } else if idx == 2 {
            self.2.next()
        } else if idx == 3 {
            self.3.next()
        } else if idx == 4 {
            self.4.next()
        } else if idx == 5 {
            self.5.next()
        } else if idx == 6 {
            self.6.next()
        } else if idx == 7 {
            self.7.next()
        } else if idx == 8 {
            self.8.next()
        } else if idx == 9 {
            self.9.next()
        } else {
            self.10.next()
        };
        assert(self.sources() =~= old(self).sources().update(idx as int, self.sources()[idx as int]));
        assert(old(self).keeps_durations() ==> self.durations() =~= old(self).durations());
        r
    }

    fn total_duration(&self, idx: usize) -> (r: Option<u128>) {
        if idx == 0 {
            self.0.total_duration_nanos()
        } else if idx == 1 {
            self.1.total_duration_nanos()
        } else if idx == 2 {
            self.2.total_duration_nanos()
        } else if idx == 3 {
            self.3.total_duration_nanos()
        } else if idx == 4 {
            self.4.total_duration_nanos()
        } else if idx == 5 {
            self.5.total_duration_nanos()
        } else if idx == 6 {
            self.6.total_duration_nanos()
        } else if idx == 7 {
            self.7.total_duration_nanos()
        } else if idx == 8 {
            self.8.total_duration_nanos()
        } else if idx == 9 {
            self.9.total_duration_nanos()
        } else {
            self.10.total_duration_nanos()
        }
    }
}

impl<
    const SR: u32,
    const CH: u16,
    T,
    S1: ConstSource<SR, CH, T>,
    S2: ConstSource<SR, CH, T>,
    S3: ConstSource<SR, CH, T>,
    S4: ConstSource<SR, CH, T>,
    S5: ConstSource<SR, CH, T>,
    S6: ConstSource<SR, CH, T>,
    S7: ConstSource<SR, CH, T>,
    S8: ConstSource<SR, CH, T>,
    S9: ConstSource<SR, CH, T>,
    S10: ConstSource<SR, CH, T>,
    S11: ConstSource<SR, CH, T>,
    S12: ConstSource<SR, CH, T>,
> ListOfSources<SR, CH, T> for (S1, S2, S3, S4, S5, S6, S7, S8, S9, S10, S11, S12) {
    open spec fn wf(&self) -> bool {
        &&& self.0.wf()
        &&& self.1.wf()
        &&& self.2.wf()
        &&& self.3.wf()
        &&& self.4.wf()
        &&& self.5.wf()
        &&& self.6.wf()
        &&& self.7.wf()
        &&& self.8.wf()
        &&& self.9.wf()
        &&& self.10.wf()
        &&& self.11.wf()
    }

    open spec fn sources(&self) -> Seq<Seq<T>> {
        seq![self.0.remaining(), self.1.remaining(), self.2.remaining(), self.3.remaining(), self.4.remaining(), self.5.remaining(), self.6.remaining(), self.7.remaining(), self.8.remaining(), self.9.remaining(), self.10.remaining(), self.11.remaining()]
    }

    open spec fn durations(&self) -> Seq<Option<nat>> {
        seq![self.0.duration(), self.1.duration(), self.2.duration(), self.3.duration(), self.4.duration(), self.5.duration(), self.6.duration(), self.7.duration(), self.8.duration(), self.9.duration(), self.10.duration(), self.11.duration()]
    }

    open spec fn keeps_durations(&self) -> bool {
        &&& self.0.keeps_duration()
        &&& self.1.keeps_duration()
        &&& self.2.keeps_duration()
        &&& self.3.keeps_duration()
        &&& self.4.keeps_duration()
        &&& self.5.keeps_duration()
        &&& self.6.keeps_duration()
        &&& self.7.keeps_duration()
        &&& self.8.keeps_duration()
        &&& self.9.keeps_duration()
        &&& self.10.keeps_duration()
        &&& self.11.keeps_duration()
    }

    fn len(&self) -> (r: usize) {
        12
    }

    fn next(&mut self, idx: usize) -> (r: Option<T>) {
        let r = if idx == 0 {
            self.0.next()
        } else if idx == 1 {
            self.1.next()
        } else if idx == 2 {
            self.2.next()
        } else if idx == 3 {
            self.3.next()
        } else if idx == 4 {
            self.4.next()
        } else if idx == 5 {
            self.5.next()
        } else if idx == 6 {
            self.6.next()
        } else if idx == 7 {
            self.7.next()
        } else if idx == 8 {
            self.8.next()
        } else if idx == 9 {
            self.9.next()
        } else if idx == 10 {
            self.10.next()
        } else {
            self.11.next()
        };
        assert(self.sources() =~= old(self).sources().update(idx as int, self.sources()[idx as int]));
        assert(old(self).keeps_durations() ==> self.durations() =~= old(self).durations());
        r
    }

    fn total_duration(&self, idx: usize) -> (r: Option<u128>) {
        if idx == 0 {
            self.0.total_duration_nanos()
        } else if idx == 1 {
            self.1.total_duration_nanos()
        } else if idx == 2 {
            self.2.total_duration_nanos()
        } else if idx == 3 {
            self.3.total_duration_nanos()
        } else if idx == 4 {
            self.4.total_duration_nanos()
        } else if idx == 5 {
            self.5.total_duration_nanos()
        } else if idx == 6 {
            self.6.total_duration_nanos()
        } else if idx == 7 {
            self.7.total_duration_nanos()
        } else if idx == 8 {
            self.8.total_duration_nanos()
        } else if idx == 9 {
            self.9.total_duration_nanos()
        } else if idx == 10 {
            self.10.total_duration_nanos()
        } else {
            self.11.total_duration_nanos()
        }
    }
}

} // verus!
