use vstd::prelude::*;

use crate::common::{ChannelCount, SampleRate};
use crate::const_source::pops;
use crate::duration::{fits_duration, opt_nat};
use crate::fixed_source::FixedSource;

verus! {

/// A fixed collection of fixed sources, addressed by index; each source has
/// its own sample rate and channel count.
pub trait FixedListOfSources<T>: Sized {
    /// Every source in the collection is well formed.
    spec fn wf(&self) -> bool;

    /// The samples each source still yields, one sequence per source.
    spec fn sources(&self) -> Seq<Seq<T>>;

    /// The duration each source reports, in nanoseconds.
    spec fn durations(&self) -> Seq<Option<nat>>;

    /// The sample rate and channel count of each source.
    spec fn params(&self) -> Seq<(nat, nat)>;

    /// Number of sources in the collection.
    fn len(&self) -> (r: usize)
        ensures
            r == self.sources().len(),
            self.durations().len() == self.sources().len(),
            self.params().len() == self.sources().len(),
    ;

    /// The next sample of the `idx`-th source.
    fn next(&mut self, idx: usize) -> (r: Option<T>)
        requires
            old(self).wf(),
            idx < old(self).sources().len(),
        ensures
            final(self).wf(),
            final(self).sources().len() == old(self).sources().len(),
            final(self).durations().len() == old(self).durations().len(),
            final(self).params() == old(self).params(),
            pops(old(self).sources()[idx as int], final(self).sources()[idx as int], r),
            final(self).sources() == old(self).sources().update(idx as int, final(self).sources()[idx as int]),
            forall|j: int| 0 <= j < old(self).durations().len() && j != idx
                ==> final(self).durations()[j] == old(self).durations()[j],
    ;

    /// The total duration of the `idx`-th source in nanoseconds.
    fn total_duration(&self, idx: usize) -> (r: Option<u128>)
        requires
            self.wf(),
            idx < self.sources().len(),
        ensures
            self.durations().len() == self.sources().len(),
            opt_nat(r) == self.durations()[idx as int],
            fits_duration(self.durations()[idx as int]),
    ;

    /// Sample rate of the `idx`-th source.
    fn sample_rate(&self, idx: usize) -> (r: SampleRate)
        requires
            self.wf(),
            idx < self.sources().len(),
        ensures
            self.params().len() == self.sources().len(),
            r == self.params()[idx as int].0,
            r > 0,
    ;

    /// Channel count of the `idx`-th source.
    fn channels(&self, idx: usize) -> (r: ChannelCount)
        requires
            self.wf(),
            idx < self.sources().len(),
        ensures
            self.params().len() == self.sources().len(),
            r == self.params()[idx as int].1,
            r > 0,
    ;
}

impl<T, S: FixedSource<T>> FixedListOfSources<T> for Vec<S> {
    open spec fn wf(&self) -> bool {
        forall|i: int| 0 <= i < self@.len() ==> #[trigger] self@[i].wf()
    }

    open spec fn sources(&self) -> Seq<Seq<T>> {
        Seq::new(self@.len(), |i: int| self@[i].remaining())
    }

    open spec fn durations(&self) -> Seq<Option<nat>> {
        Seq::new(self@.len(), |i: int| self@[i].duration())
    }

    open spec fn params(&self) -> Seq<(nat, nat)> {
        Seq::new(self@.len(), |i: int| (self@[i].rate(), self@[i].chans()))
    }

    fn len(&self) -> (r: usize) {
        self.len()
    }

    fn next(&mut self, idx: usize) -> (r: Option<T>) {
        let r = self[idx].next();
        assert(self.sources() =~= old(self).sources().update(idx as int, self.sources()[idx as int]));
        assert(self.params() =~= old(self).params());
        r
    }

    fn total_duration(&self, idx: usize) -> (r: Option<u128>) {
        self[idx].total_duration_nanos()
    }

    fn sample_rate(&self, idx: usize) -> (r: SampleRate) {
        self[idx].sample_rate()
    }

    fn channels(&self, idx: usize) -> (r: ChannelCount) {
        self[idx].channels()
    }
}

impl<
    T,
    S1: FixedSource<T>,
    S2: FixedSource<T>,
> FixedListOfSources<T> for (S1, S2) {
    open spec fn wf(&self) -> bool {
        &&& self.0.wf()
        &&& self.1.wf()
    }

    open spec fn sources(&self) -> Seq<Seq<T>> {
        seq![self.0.remaining(), self.1.remaining()]
    }

    open spec fn durations(&self) -> Seq<Option<nat>> {
        seq![self.0.duration(), self.1.duration()]
    }

    open spec fn params(&self) -> Seq<(nat, nat)> {
        seq![(self.0.rate(), self.0.chans()), (self.1.rate(), self.1.chans())]
    }

    fn len(&self) -> (r: usize) {
        2
    }

    fn next(&mut self, idx: usize) -> (r: Option<T>) {
        let r = if idx == 0 {
            self.0.next()
        } else {
            self.1.next()
        };
        assert(self.sources() =~= old(self).sources().update(idx as int, self.sources()[idx as int]));
        assert(self.params() =~= old(self).params());
        r
    }

    fn total_duration(&self, idx: usize) -> (r: Option<u128>) {
        if idx == 0 {
            self.0.total_duration_nanos()
        } else {
            self.1.total_duration_nanos()
        }
    }

    fn sample_rate(&self, idx: usize) -> (r: SampleRate) {
        if idx == 0 {
            self.0.sample_rate()
        } else {
            self.1.sample_rate()
        }
    }

    fn channels(&self, idx: usize) -> (r: ChannelCount) {
        if idx == 0 {
            self.0.channels()
        } else {
            self.1.channels()
        }
    }
}

impl<
    T,
    S1: FixedSource<T>,
    S2: FixedSource<T>,
    S3: FixedSource<T>,
> FixedListOfSources<T> for (S1, S2, S3) {
    open spec fn wf(&self) -> bool {
        &&& self.0.wf()
        &&& self.1.wf()
        &&& self.2.wf()
    }

    open spec fn sources(&self) -> Seq<Seq<T>> {
        seq![self.0.remaining(), self.1.remaining(), self.2.remaining()]
    }

    open spec fn durations(&self) -> Seq<Option<nat>> {
        seq![self.0.duration(), self.1.duration(), self.2.duration()]
    }

    open spec fn params(&self) -> Seq<(nat, nat)> {
        seq![(self.0.rate(), self.0.chans()), (self.1.rate(), self.1.chans()), (self.2.rate(), self.2.chans())]
    }

    fn len(&self) -> (r: usize) {
        3
    }

    fn next(&mut self, idx: usize) -> (r: Option<T>) {
        let r = if idx == 0 {
            self.0.next()
        } else if idx == 1 {
            self.1.next()
        } else {
            self.2.next()
        };
        assert(self.sources() =~= old(self).sources().update(idx as int, self.sources()[idx as int]));
        assert(self.params() =~= old(self).params());
        r
    }

    fn total_duration(&self, idx: usize) -> (r: Option<u128>) {
        if idx == 0 {
            self.0.total_duration_nanos()
        } else if idx == 1 {
            self.1.total_duration_nanos()
        } else {
            self.2.total_duration_nanos()
        }
    }

    fn sample_rate(&self, idx: usize) -> (r: SampleRate) {
        if idx == 0 {
            self.0.sample_rate()
        } else if idx == 1 {
            self.1.sample_rate()
        } else {
            self.2.sample_rate()
        }
    }

    fn channels(&self, idx: usize) -> (r: ChannelCount) {
        if idx == 0 {
            self.0.channels()
        } else if idx == 1 {
            self.1.channels()
        } else {
            self.2.channels()
        }
    }
}

impl<
    T,
    S1: FixedSource<T>,
    S2: FixedSource<T>,
    S3: FixedSource<T>,
    S4: FixedSource<T>,
> FixedListOfSources<T> for (S1, S2, S3, S4) {
    open spec fn wf(&self) -> bool {
        &&& self.0.wf()
        &&& self.1.wf()
        &&& self.2.wf()
        &&& self.3.wf()
    }

    open spec fn sources(&self) -> Seq<Seq<T>> {
        seq![self.0.remaining(), self.1.remaining(), self.2.remaining(), self.3.remaining()]
    }

    open spec fn durations(&self) -> Seq<Option<nat>> {
        seq![self.0.duration(), self.1.duration(), self.2.duration(), self.3.duration()]
    }

    open spec fn params(&self) -> Seq<(nat, nat)> {
        seq![(self.0.rate(), self.0.chans()), (self.1.rate(), self.1.chans()), (self.2.rate(), self.2.chans()), (self.3.rate(), self.3.chans())]
    }

    fn len(&self) -> (r: usize) {
        4
    }

    fn next(&mut self, idx: usize) -> (r: Option<T>) {
        let r = if idx == 0 {
            self.0.next()
        } else if idx == 1 {
            self.1.next()
        } else if idx == 2 {
            self.2.next()
        } else {
            self.3.next()
        };
        assert(self.sources() =~= old(self).sources().update(idx as int, self.sources()[idx as int]));
        assert(self.params() =~= old(self).params());
        r
    }

    fn total_duration(&self, idx: usize) -> (r: Option<u128>) {
        if idx == 0 {
            self.0.total_duration_nanos()
        } else if idx == 1 {
            self.1.total_duration_nanos()
        } else if idx == 2 {
            self.2.total_duration_nanos()
        } else {
            self.3.total_duration_nanos()
        }
    }

    fn sample_rate(&self, idx: usize) -> (r: SampleRate) {
        if idx == 0 {
            self.0.sample_rate()
        } else if idx == 1 {
            self.1.sample_rate()
        } else if idx == 2 {
            self.2.sample_rate()
        } else {
            self.3.sample_rate()
        }
    }

    fn channels(&self, idx: usize) -> (r: ChannelCount) {
        if idx == 0 {
            self.0.channels()
        } else if idx == 1 {
            self.1.channels()
        } else if idx == 2 {
            self.2.channels()
        } else {
            self.3.channels()
        }
    }
}

impl<
    T,
    S1: FixedSource<T>,
    S2: FixedSource<T>,
    S3: FixedSource<T>,
    S4: FixedSource<T>,
    S5: FixedSource<T>,
> FixedListOfSources<T> for (S1, S2, S3, S4, S5) {
    open spec fn wf(&self) -> bool {
        &&& self.0.wf()
        &&& self.1.wf()
        &&& self.2.wf()
        &&& self.3.wf()
        &&& self.4.wf()
    }

    open spec fn sources(&self) -> Seq<Seq<T>> {
        seq![self.0.remaining(), self.1.remaining(), self.2.remaining(), self.3.remaining(), self.4.remaining()]
    }

    open spec fn durations(&self) -> Seq<Option<nat>> {
        seq![self.0.duration(), self.1.duration(), self.2.duration(), self.3.duration(), self.4.duration()]
    }

    open spec fn params(&self) -> Seq<(nat, nat)> {
        seq![(self.0.rate(), self.0.chans()), (self.1.rate(), self.1.chans()), (self.2.rate(), self.2.chans()), (self.3.rate(), self.3.chans()), (self.4.rate(), self.4.chans())]
    }

    fn len(&self) -> (r: usize) {
        5
    }

    fn next(&mut self, idx: usize) -> (r: Option<T>) {
        let r = if idx == 0 {
            self.0.next()
        } else if idx == 1 {
            self.1.next()
        } else if idx == 2 {
            self.2.next()
        } else if idx == 3 {
            self.3.next()
        } else {
            self.4.next()
        };
        assert(self.sources() =~= old(self).sources().update(idx as int, self.sources()[idx as int]));
        assert(self.params() =~= old(self).params());
        r
    }

    fn total_duration(&self, idx: usize) -> (r: Option<u128>) {
        if idx == 0 {
            self.0.total_duration_nanos()
        } else if idx == 1 {
            self.1.total_duration_nanos()
        } else if idx == 2 {
            self.2.total_duration_nanos()
        } else if idx == 3 {
            self.3.total_duration_nanos()
        } else {
            self.4.total_duration_nanos()
        }
    }

    fn sample_rate(&self, idx: usize) -> (r: SampleRate) {
        if idx == 0 {
            self.0.sample_rate()
        } else if idx == 1 {
            self.1.sample_rate()
        } else if idx == 2 {
            self.2.sample_rate()
        } else if idx == 3 {
            self.3.sample_rate()
        } else {
            self.4.sample_rate()
        }
    }

    fn channels(&self, idx: usize) -> (r: ChannelCount) {
        if idx == 0 {
            self.0.channels()
        } else if idx == 1 {
            self.1.channels()
        } else if idx == 2 {
            self.2.channels()
        } else if idx == 3 {
            self.3.channels()
        } else {
            self.4.channels()
        }
    }
}

impl<
    T,
    S1: FixedSource<T>,
    S2: FixedSource<T>,
    S3: FixedSource<T>,
    S4: FixedSource<T>,
    S5: FixedSource<T>,
    S6: FixedSource<T>,
> FixedListOfSources<T> for (S1, S2, S3, S4, S5, S6) {
    open spec fn wf(&self) -> bool {
        &&& self.0.wf()
        &&& self.1.wf()
        &&& self.2.wf()
        &&& self.3.wf()
        &&& self.4.wf()
        &&& self.5.wf()
    }

    open spec fn sources(&self) -> Seq<Seq<T>> {
        seq![self.0.remaining(), self.1.remaining(), self.2.remaining(), self.3.remaining(), self.4.remaining(), self.5.remaining()]
    }

    open spec fn durations(&self) -> Seq<Option<nat>> {
        seq![self.0.duration(), self.1.duration(), self.2.duration(), self.3.duration(), self.4.duration(), self.5.duration()]
    }

    open spec fn params(&self) -> Seq<(nat, nat)> {
        seq![(self.0.rate(), self.0.chans()), (self.1.rate(), self.1.chans()), (self.2.rate(), self.2.chans()), (self.3.rate(), self.3.chans()), (self.4.rate(), self.4.chans()), (self.5.rate(), self.5.chans())]
    }

    fn len(&self) -> (r: usize) {
        6
    }

    fn next(&mut self, idx: usize) -> (r: Option<T>) {
        let r = if idx == 0 {
            self.0.next()
        } else if idx == 1 {
            self.1.next()
        } else if idx == 2 {
            self.2.next()
        } else if idx == 3 {
            self.3.next()
        } else if idx == 4 {
            self.4.next()
        } else {
            self.5.next()
        };
        assert(self.sources() =~= old(self).sources().update(idx as int, self.sources()[idx as int]));
        assert(self.params() =~= old(self).params());
        r
    }

    fn total_duration(&self, idx: usize) -> (r: Option<u128>) {
        if idx == 0 {
            self.0.total_duration_nanos()
        } else if idx == 1 {
            self.1.total_duration_nanos()
        } else if idx == 2 {
            self.2.total_duration_nanos()
        } else if idx == 3 {
            self.3.total_duration_nanos()
        } else if idx == 4 {
            self.4.total_duration_nanos()
        } else {
            self.5.total_duration_nanos()
        }
    }

    fn sample_rate(&self, idx: usize) -> (r: SampleRate) {
        if idx == 0 {
            self.0.sample_rate()
        } else if idx == 1 {
            self.1.sample_rate()
        } else if idx == 2 {
            self.2.sample_rate()
        } else if idx == 3 {
            self.3.sample_rate()
        } else if idx == 4 {
            self.4.sample_rate()
        } else {
            self.5.sample_rate()
        }
    }

    fn channels(&self, idx: usize) -> (r: ChannelCount) {
        if idx == 0 {
            self.0.channels()
        } else if idx == 1 {
            self.1.channels()
        } else if idx == 2 {
            self.2.channels()
        } else if idx == 3 {
            self.3.channels()
        } else if idx == 4 {
            self.4.channels()
        } else {
            self.5.channels()
        }
    }
}

impl<
    T,
    S1: FixedSource<T>,
    S2: FixedSource<T>,
    S3: FixedSource<T>,
    S4: FixedSource<T>,
    S5: FixedSource<T>,
    S6: FixedSource<T>,
    S7: FixedSource<T>,
> FixedListOfSources<T> for (S1, S2, S3, S4, S5, S6, S7) {
    open spec fn wf(&self) -> bool {
        &&& self.0.wf()
        &&& self.1.wf()
        &&& self.2.wf()
        &&& self.3.wf()
        &&& self.4.wf()
        &&& self.5.wf()
        &&& self.6.wf()
    }

    open spec fn sources(&self) -> Seq<Seq<T>> {
        seq![self.0.remaining(), self.1.remaining(), self.2.remaining(), self.3.remaining(), self.4.remaining(), self.5.remaining(), self.6.remaining()]
    }

    open spec fn durations(&self) -> Seq<Option<nat>> {
        seq![self.0.duration(), self.1.duration(), self.2.duration(), self.3.duration(), self.4.duration(), self.5.duration(), self.6.duration()]
    }

    open spec fn params(&self) -> Seq<(nat, nat)> {
        seq![(self.0.rate(), self.0.chans()), (self.1.rate(), self.1.chans()), (self.2.rate(), self.2.chans()), (self.3.rate(), self.3.chans()), (self.4.rate(), self.4.chans()), (self.5.rate(), self.5.chans()), (self.6.rate(), self.6.chans())]
    }

    fn len(&self) -> (r: usize) {
        7
    }

    fn next(&mut self, idx: usize) -> (r: Option<T>) {
        let r = if idx == 0 {
            self.0.next()
        } else if idx == 1 {
            self.1.next()
        } else if idx == 2 {
            self.2.next()
        } else if idx == 3 {
            self.3.next()
        } else if idx == 4 {
            self.4.next()
        } else if idx == 5 {
            self.5.next()
        } else {
            self.6.next()
        };
        assert(self.sources() =~= old(self).sources().update(idx as int, self.sources()[idx as int]));
        assert(self.params() =~= old(self).params());
        r
    }

    fn total_duration(&self, idx: usize) -> (r: Option<u128>) {
        if idx == 0 {
            self.0.total_duration_nanos()
        } else if idx == 1 {
            self.1.total_duration_nanos()
        } else if idx == 2 {
            self.2.total_duration_nanos()
        } else if idx == 3 {
            self.3.total_duration_nanos()
        } else if idx == 4 {
            self.4.total_duration_nanos()
        } else if idx == 5 {
            self.5.total_duration_nanos()
        } else {
            self.6.total_duration_nanos()
        }
    }

    fn sample_rate(&self, idx: usize) -> (r: SampleRate) {
        if idx == 0 {
            self.0.sample_rate()
        } else if idx == 1 {
            self.1.sample_rate()
        } else if idx == 2 {
            self.2.sample_rate()
        } else if idx == 3 {
            self.3.sample_rate()
        } else if idx == 4 {
            self.4.sample_rate()
        } else if idx == 5 {
            self.5.sample_rate()
        } else {
            self.6.sample_rate()
        }
    }

    fn channels(&self, idx: usize) -> (r: ChannelCount) {
        if idx == 0 {
            self.0.channels()
        } else if idx == 1 {
            self.1.channels()
        } else if idx == 2 {
            self.2.channels()
        } else if idx == 3 {
            self.3.channels()
        } else if idx == 4 {
            self.4.channels()
        } else if idx == 5 {
            self.5.channels()
        } else {
            self.6.channels()
        }
    }
}

impl<
    T,
    S1: FixedSource<T>,
    S2: FixedSource<T>,
    S3: FixedSource<T>,
    S4: FixedSource<T>,
    S5: FixedSource<T>,
    S6: FixedSource<T>,
    S7: FixedSource<T>,
    S8: FixedSource<T>,
> FixedListOfSources<T> for (S1, S2, S3, S4, S5, S6, S7, S8) {
    open spec fn wf(&self) -> bool {
        &&& self.0.wf()
        &&& self.1.wf()
        &&& self.2.wf()
        &&& self.3.wf()
        &&& self.4.wf()
        &&& self.5.wf()
        &&& self.6.wf()
        &&& self.7.wf()
    }

    open spec fn sources(&self) -> Seq<Seq<T>> {
        seq![self.0.remaining(), self.1.remaining(), self.2.remaining(), self.3.remaining(), self.4.remaining(), self.5.remaining(), self.6.remaining(), self.7.remaining()]
    }

    open spec fn durations(&self) -> Seq<Option<nat>> {
        seq![self.0.duration(), self.1.duration(), self.2.duration(), self.3.duration(), self.4.duration(), self.5.duration(), self.6.duration(), self.7.duration()]
    }

    open spec fn params(&self) -> Seq<(nat, nat)> {
        seq![(self.0.rate(), self.0.chans()), (self.1.rate(), self.1.chans()), (self.2.rate(), self.2.chans()), (self.3.rate(), self.3.chans()), (self.4.rate(), self.4.chans()), (self.5.rate(), self.5.chans()), (self.6.rate(), self.6.chans()), (self.7.rate(), self.7.chans())]
    }

    fn len(&self) -> (r: usize) {
        8
    }

    fn next(&mut self, idx: usize) -> (r: Option<T>) {
        let r = if idx == 0 {
            self.0.next()
        } else if idx == 1 {
            self.1.next()
        } else if idx == 2 {
            self.2.next()
        } else if idx == 3 {
            self.3.next()
        } else if idx == 4 {
            self.4.next()
        } else if idx == 5 {
            self.5.next()
        } else if idx == 6 {
            self.6.next()
        } else {
            self.7.next()
        };
        assert(self.sources() =~= old(self).sources().update(idx as int, self.sources()[idx as int]));
        assert(self.params() =~= old(self).params());
        r
    }

    fn total_duration(&self, idx: usize) -> (r: Option<u128>) {
        if idx == 0 {
            self.0.total_duration_nanos()
        } else if idx == 1 {
            self.1.total_duration_nanos()
        } else if idx == 2 {
            self.2.total_duration_nanos()
        } else if idx == 3 {
            self.3.total_duration_nanos()
        } else if idx == 4 {
            self.4.total_duration_nanos()
        } else if idx == 5 {
            self.5.total_duration_nanos()
        } else if idx == 6 {
            self.6.total_duration_nanos()
        } else {
            self.7.total_duration_nanos()
        }
    }

    fn sample_rate(&self, idx: usize) -> (r: SampleRate) {
        if idx == 0 {
            self.0.sample_rate()
        } else if idx == 1 {
            self.1.sample_rate()
        } else if idx == 2 {
            self.2.sample_rate()
        } else if idx == 3 {
            self.3.sample_rate()
        } else if idx == 4 {
            self.4.sample_rate()
        } else if idx == 5 {
            self.5.sample_rate()
        } else if idx == 6 {
            self.6.sample_rate()
        } else {
            self.7.sample_rate()
        }
    }

    fn channels(&self, idx: usize) -> (r: ChannelCount) {
        if idx == 0 {
            self.0.channels()
        } else if idx == 1 {
            self.1.channels()
        } else if idx == 2 {
            self.2.channels()
        } else if idx == 3 {
            self.3.channels()
        } else if idx == 4 {
            self.4.channels()
        } else if idx == 5 {
            self.5.channels()
        } else if idx == 6 {
            self.6.channels()
        } else {
            self.7.channels()
        }
    }
}

impl<
    T,
    S1: FixedSource<T>,
    S2: FixedSource<T>,
    S3: FixedSource<T>,
    S4: FixedSource<T>,
    S5: FixedSource<T>,
    S6: FixedSource<T>,
    S7: FixedSource<T>,
    S8: FixedSource<T>,
    S9: FixedSource<T>,
> FixedListOfSources<T> for (S1, S2, S3, S4, S5, S6, S7, S8, S9) {
    open spec fn wf(&self) -> bool {
        &&& self.0.wf()
        &&& self.1.wf()
        &&& self.2.wf()
        &&& self.3.wf()
        &&& self.4.wf()
        &&& self.5.wf()
        &&& self.6.wf()
        &&& self.7.wf()
        &&& self.8.wf()
    }

    open spec fn sources(&self) -> Seq<Seq<T>> {
        seq![self.0.remaining(), self.1.remaining(), self.2.remaining(), self.3.remaining(), self.4.remaining(), self.5.remaining(), self.6.remaining(), self.7.remaining(), self.8.remaining()]
    }

    open spec fn durations(&self) -> Seq<Option<nat>> {
        seq![self.0.duration(), self.1.duration(), self.2.duration(), self.3.duration(), self.4.duration(), self.5.duration(), self.6.duration(), self.7.duration(), self.8.duration()]
    }

    open spec fn params(&self) -> Seq<(nat, nat)> {
        seq![(self.0.rate(), self.0.chans()), (self.1.rate(), self.1.chans()), (self.2.rate(), self.2.chans()), (self.3.rate(), self.3.chans()), (self.4.rate(), self.4.chans()), (self.5.rate(), self.5.chans()), (self.6.rate(), self.6.chans()), (self.7.rate(), self.7.chans()), (self.8.rate(), self.8.chans())]
    }

    fn len(&self) -> (r: usize) {
        9
    }

    fn next(&mut self, idx: usize) -> (r: Option<T>) {
        let r = if idx == 0 {
            self.0.next()
        } else if idx == 1 {
            self.1.next()
        } else if idx == 2 {
            self.2.next()
        } else if idx == 3 {
            self.3.next()
        } else if idx == 4 {
            self.4.next()
        } else if idx == 5 {
            self.5.next()
        } else if idx == 6 {
            self.6.next()
        } else if idx == 7 {
            self.7.next()
        } else {
            self.8.next()
        };
        assert(self.sources() =~= old(self).sources().update(idx as int, self.sources()[idx as int]));
        assert(self.params() =~= old(self).params());
        r
    }

    fn total_duration(&self, idx: usize) -> (r: Option<u128>) {
        if idx == 0 {
            self.0.total_duration_nanos()
        } else if idx == 1 {
            self.1.total_duration_nanos()
        } else if idx == 2 {
            self.2.total_duration_nanos()
        } else if idx == 3 {
            self.3.total_duration_nanos()
        } else if idx == 4 {
            self.4.total_duration_nanos()
        } else if idx == 5 {
            self.5.total_duration_nanos()
        } else if idx == 6 {
            self.6.total_duration_nanos()
        } else if idx == 7 {
            self.7.total_duration_nanos()
        } else {
            self.8.total_duration_nanos()
        }
    }

    fn sample_rate(&self, idx: usize) -> (r: SampleRate) {
        if idx == 0 {
            self.0.sample_rate()
        } else if idx == 1 {
            self.1.sample_rate()
        } else if idx == 2 {
            self.2.sample_rate()
        } else if idx == 3 {
            self.3.sample_rate()
        } else if idx == 4 {
            self.4.sample_rate()
        } else if idx == 5 {
            self.5.sample_rate()
        } else if idx == 6 {
            self.6.sample_rate()
        } else if idx == 7 {
            self.7.sample_rate()
        } else {
            self.8.sample_rate()
        }
    }

    fn channels(&self, idx: usize) -> (r: ChannelCount) {
        if idx == 0 {
            self.0.channels()
        } else if idx == 1 {
            self.1.channels()
        } else if idx == 2 {
            self.2.channels()
        } else if idx == 3 {
            self.3.channels()
        } else if idx == 4 {
            self.4.channels()
        } else if idx == 5 {
            self.5.channels()
        } else if idx == 6 {
            self.6.channels()
        } else if idx == 7 {
            self.7.channels()
        } else {
            self.8.channels()
        }
    }
}

impl<
    T,
    S1: FixedSource<T>,
    S2: FixedSource<T>,
    S3: FixedSource<T>,
    S4: FixedSource<T>,
    S5: FixedSource<T>,
    S6: FixedSource<T>,
    S7: FixedSource<T>,
    S8: FixedSource<T>,
    S9: FixedSource<T>,
    S10: FixedSource<T>,
> FixedListOfSources<T> for (S1, S2, S3, S4, S5, S6, S7, S8, S9, S10) {
    open spec fn wf(&self) -> bool {
        &&& self.0.wf()
        &&& self.1.wf()
        &&& self.2.wf()
        &&& self.3.wf()
        &&& self.4.wf()
        &&& self.5.wf()
        &&& self.6.wf()
        &&& self.7.wf()
        &&& self.8.wf()
        &&& self.9.wf()
    }

    open spec fn sources(&self) -> Seq<Seq<T>> {
        seq![self.0.remaining(), self.1.remaining(), self.2.remaining(), self.3.remaining(), self.4.remaining(), self.5.remaining(), self.6.remaining(), self.7.remaining(), self.8.remaining(), self.9.remaining()]
    }

    open spec fn durations(&self) -> Seq<Option<nat>> {
        seq![self.0.duration(), self.1.duration(), self.2.duration(), self.3.duration(), self.4.duration(), self.5.duration(), self.6.duration(), self.7.duration(), self.8.duration(), self.9.duration()]
    }

    open spec fn params(&self) -> Seq<(nat, nat)> {
        seq![(self.0.rate(), self.0.chans()), (self.1.rate(), self.1.chans()), (self.2.rate(), self.2.chans()), (self.3.rate(), self.3.chans()), (self.4.rate(), self.4.chans()), (self.5.rate(), self.5.chans()), (self.6.rate(), self.6.chans()), (self.7.rate(), self.7.chans()), (self.8.rate(), self.8.chans()), (self.9.rate(), self.9.chans())]
    }

    fn len(&self) -> (r: usize) {
        10
    }

    fn next(&mut self, idx: usize) -> (r: Option<T>) {
        let r = if idx == 0 {
            self.0.next()
        } else if idx == 1 {
            self.1.next()
        } else if idx == 2 {
            self.2.next()
        } else if idx == 3 {
            self.3.next()
        } else if idx == 4 {
            self.4.next()
        } else if idx == 5 {
            self.5.next()
        } else if idx == 6 {
            self.6.next()
        } else if idx == 7 {
            self.7.next()
        } else if idx == 8 {
            self.8.next()
        } else {
            self.9.next()
        };
        assert(self.sources() =~= old(self).sources().update(idx as int, self.sources()[idx as int]));
        assert(self.params() =~= old(self).params());
        r
    }

    fn total_duration(&self, idx: usize) -> (r: Option<u128>) {
        if idx == 0 {
            self.0.total_duration_nanos()
        } else if idx == 1 {
            self.1.total_duration_nanos()
        } else if idx == 2 {
            self.2.total_duration_nanos()
        } else if idx == 3 {
            self.3.total_duration_nanos()
        } else if idx == 4 {
            self.4.total_duration_nanos()
        } else if idx == 5 {
            self.5.total_duration_nanos()
        } else if idx == 6 {
            self.6.total_duration_nanos()
        } else if idx == 7 {
            self.7.total_duration_nanos()
        } else if idx == 8 {
            self.8.total_duration_nanos()
        } else {
            self.9.total_duration_nanos()
        }
    }

    fn sample_rate(&self, idx: usize) -> (r: SampleRate) {
        if idx == 0 {
            self.0.sample_rate()
        } else if idx == 1 {
            self.1.sample_rate()
        } else if idx == 2 {
            self.2.sample_rate()
        } else if idx == 3 {
            self.3.sample_rate()
        } else if idx == 4 {
            self.4.sample_rate()
        } else if idx == 5 {
            self.5.sample_rate()
        } else if idx == 6 {
            self.6.sample_rate()
        } else if idx == 7 {
            self.7.sample_rate()
        } else if idx == 8 {
            self.8.sample_rate()
        } else {
            self.9.sample_rate()
        }
    }

    fn channels(&self, idx: usize) -> (r: ChannelCount) {
        if idx == 0 {
            self.0.channels()
        } else if idx == 1 {
            self.1.channels()
        } else if idx == 2 {
            self.2.channels()
        } else if idx == 3 {
            self.3.channels()
        } else if idx == 4 {
            self.4.channels()
        } else if idx == 5 {
            self.5.channels()
        } else if idx == 6 {
            self.6.channels()
        } else if idx == 7 {
            self.7.channels()
        } else if idx == 8 {
            self.8.channels()
        } else {
            self.9.channels()
        }
    }
}

impl<
    T,
    S1: FixedSource<T>,
    S2: FixedSource<T>,
    S3: FixedSource<T>,
    S4: FixedSource<T>,
    S5: FixedSource<T>,
    S6: FixedSource<T>,
    S7: FixedSource<T>,
    S8: FixedSource<T>,
    S9: FixedSource<T>,
    S10: FixedSource<T>,
    S11: FixedSource<T>,
> FixedListOfSources<T> for (S1, S2, S3, S4, S5, S6, S7, S8, S9, S10, S11) {
    open spec fn wf(&self) -> bool {
        &&& self.0.wf()
        &&& self.1.wf()
        &&& self.2.wf()
        &&& self.3.wf()
        &&& self.4.wf()
        &&& self.5.wf()
        &&& self.6.wf()
        &&& self.7.wf()
        &&& self.8.wf()
        &&& self.9.wf()
        &&& self.10.wf()
    }

    open spec fn sources(&self) -> Seq<Seq<T>> {
        seq![self.0.remaining(), self.1.remaining(), self.2.remaining(), self.3.remaining(), self.4.remaining(), self.5.remaining(), self.6.remaining(), self.7.remaining(), self.8.remaining(), self.9.remaining(), self.10.remaining()]
    }

    open spec fn durations(&self) -> Seq<Option<nat>> {
        seq![self.0.duration(), self.1.duration(), self.2.duration(), self.3.duration(), self.4.duration(), self.5.duration(), self.6.duration(), self.7.duration(), self.8.duration(), self.9.duration(), self.10.duration()]
    }

    open spec fn params(&self) -> Seq<(nat, nat)> {
        seq![(self.0.rate(), self.0.chans()), (self.1.rate(), self.1.chans()), (self.2.rate(), self.2.chans()), (self.3.rate(), self.3.chans()), (self.4.rate(), self.4.chans()), (self.5.rate(), self.5.chans()), (self.6.rate(), self.6.chans()), (self.7.rate(), self.7.chans()), (self.8.rate(), self.8.chans()), (self.9.rate(), self.9.chans()), (self.10.rate(), self.10.chans())]
    }

    fn len(&self) -> (r: usize) {
        11
    }

    fn next(&mut self, idx: usize) -> (r: Option<T>) {
        let r = if idx == 0 {
            self.0.next()
        } else if idx == 1 {
            self.1.next()
        } else if idx == 2 {
            self.2.next()
        } else if idx == 3 {
            self.3.next()
        } else if idx == 4 {
            self.4.next()
        } else if idx == 5 {
            self.5.next()
        } else if idx == 6 {
            self.6.next()
        } else if idx == 7 {
            self.7.next()
        } else if idx == 8 {
            self.8.next()
        } else if idx == 9 {
            self.9.next()
        } else {
            self.10.next()
        };
        assert(self.sources() =~= old(self).sources().update(idx as int, self.sources()[idx as int]));
        assert(self.params() =~= old(self).params());
        r
    }

    fn total_duration(&self, idx: usize) -> (r: Option<u128>) {
        if idx == 0 {
            self.0.total_duration_nanos()
        } else if idx == 1 {
            self.1.total_duration_nanos()
        } else if idx == 2 {
            self.2.total_duration_nanos()
        } else if idx == 3 {
            self.3.total_duration_nanos()
        } else if idx == 4 {
            self.4.total_duration_nanos()
        } else if idx == 5 {
            self.5.total_duration_nanos()
        } else if idx == 6 {
            self.6.total_duration_nanos()
        } else if idx == 7 {
            self.7.total_duration_nanos()
        } else if idx == 8 {
            self.8.total_duration_nanos()
        } else if idx == 9 {
            self.9.total_duration_nanos()
        } else {
            self.10.total_duration_nanos()
        }
    }

    fn sample_rate(&self, idx: usize) -> (r: SampleRate) {
        if idx == 0 {
            self.0.sample_rate()
        } else if idx == 1 {
            self.1.sample_rate()
        } else if idx == 2 {
            self.2.sample_rate()
        } else if idx == 3 {
            self.3.sample_rate()
        } else if idx == 4 {
            self.4.sample_rate()
        } else if idx == 5 {
            self.5.sample_rate()
        } else if idx == 6 {
            self.6.sample_rate()
        } else if idx == 7 {
            self.7.sample_rate()
        } else if idx == 8 {
            self.8.sample_rate()
        } else if idx == 9 {
            self.9.sample_rate()
        } else {
            self.10.sample_rate()
        }
    }

    fn channels(&self, idx: usize) -> (r: ChannelCount) {
        if idx == 0 {
            self.0.channels()
        } else if idx == 1 {
            self.1.channels()
        } else if idx == 2 {
            self.2.channels()
        } else if idx == 3 {
            self.3.channels()
        } else if idx == 4 {
            self.4.channels()
        } else if idx == 5 {
            self.5.channels()
        } else if idx == 6 {
            self.6.channels()
        } else if idx == 7 {
            self.7.channels()
        } else if idx == 8 {
            self.8.channels()
        } else if idx == 9 {
            self.9.channels()
        } else {
            self.10.channels()
        }
    }
}

impl<
    T,
    S1: FixedSource<T>,
    S2: FixedSource<T>,
    S3: FixedSource<T>,
    S4: FixedSource<T>,
    S5: FixedSource<T>,
    S6: FixedSource<T>,
    S7: FixedSource<T>,
    S8: FixedSource<T>,
    S9: FixedSource<T>,
    S10: FixedSource<T>,
    S11: FixedSource<T>,
    S12: FixedSource<T>,
> FixedListOfSources<T> for (S1, S2, S3, S4, S5, S6, S7, S8, S9, S10, S11, S12) {
    open spec fn wf(&self) -> bool {
        &&& self.0.wf()
        &&& self.1.wf()
        &&& self.2.wf()
        &&& self.3.wf()
        &&& self.4.wf()
        &&& self.5.wf()
        &&& self.6.wf()
        &&& self.7.wf()
        &&& self.8.wf()
        &&& self.9.wf()
        &&& self.10.wf()
        &&& self.11.wf()
    }

    open spec fn sources(&self) -> Seq<Seq<T>> {
        seq![self.0.remaining(), self.1.remaining(), self.2.remaining(), self.3.remaining(), self.4.remaining(), self.5.remaining(), self.6.remaining(), self.7.remaining(), self.8.remaining(), self.9.remaining(), self.10.remaining(), self.11.remaining()]
    }

    open spec fn durations(&self) -> Seq<Option<nat>> {
        seq![self.0.duration(), self.1.duration(), self.2.duration(), self.3.duration(), self.4.duration(), self.5.duration(), self.6.duration(), self.7.duration(), self.8.duration(), self.9.duration(), self.10.duration(), self.11.duration()]
    }

    open spec fn params(&self) -> Seq<(nat, nat)> {
        seq![(self.0.rate(), self.0.chans()), (self.1.rate(), self.1.chans()), (self.2.rate(), self.2.chans()), (self.3.rate(), self.3.chans()), (self.4.rate(), self.4.chans()), (self.5.rate(), self.5.chans()), (self.6.rate(), self.6.chans()), (self.7.rate(), self.7.chans()), (self.8.rate(), self.8.chans()), (self.9.rate(), self.9.chans()), (self.10.rate(), self.10.chans()), (self.11.rate(), self.11.chans())]
    }

    fn len(&self) -> (r: usize) {
        12
    }

    fn next(&mut self, idx: usize) -> (r: Option<T>) {
        let r = if idx == 0 {
            self.0.next()
        } else if idx == 1 {
            self.1.next()
        } else if idx == 2 {
            self.2.next()
        } else if idx == 3 {
            self.3.next()
        } else if idx == 4 {
            self.4.next()
        } else if idx == 5 {
            self.5.next()
        } else if idx == 6 {
            self.6.next()
        } else if idx == 7 {
            self.7.next()
        } else if idx == 8 {
            self.8.next()
        } else if idx == 9 {
            self.9.next()
        } else if idx == 10 {
            self.10.next()
        } else {
            self.11.next()
        };
        assert(self.sources() =~= old(self).sources().update(idx as int, self.sources()[idx as int]));
        assert(self.params() =~= old(self).params());
        r
    }

    fn total_duration(&self, idx: usize) -> (r: Option<u128>) {
        if idx == 0 {
            self.0.total_duration_nanos()
        } else if idx == 1 {
            self.1.total_duration_nanos()
        } else if idx == 2 {
            self.2.total_duration_nanos()
        } else if idx == 3 {
            self.3.total_duration_nanos()
        } else if idx == 4 {
            self.4.total_duration_nanos()
        } else if idx == 5 {
            self.5.total_duration_nanos()
        } else if idx == 6 {
            self.6.total_duration_nanos()
        } else if idx == 7 {
            self.7.total_duration_nanos()
        } else if idx == 8 {
            self.8.total_duration_nanos()
        } else if idx == 9 {
            self.9.total_duration_nanos()
        } else if idx == 10 {
            self.10.total_duration_nanos()
        } else {
            self.11.total_duration_nanos()
        }
    }

    fn sample_rate(&self, idx: usize) -> (r: SampleRate) {
        if idx == 0 {
            self.0.sample_rate()
        } else if idx == 1 {
            self.1.sample_rate()
        } else if idx == 2 {
            self.2.sample_rate()
        } else if idx == 3 {
            self.3.sample_rate()
        } else if idx == 4 {
            self.4.sample_rate()
        } else if idx == 5 {
            self.5.sample_rate()
        } else if idx == 6 {
            self.6.sample_rate()
        } else if idx == 7 {
            self.7.sample_rate()
        } else if idx == 8 {
            self.8.sample_rate()
        } else if idx == 9 {
            self.9.sample_rate()
        } else if idx == 10 {
            self.10.sample_rate()
        } else {
            self.11.sample_rate()
        }
    }

    fn channels(&self, idx: usize) -> (r: ChannelCount) {
        if idx == 0 {
            self.0.channels()
        } else if idx == 1 {
            self.1.channels()
        } else if idx == 2 {
            self.2.channels()
        } else if idx == 3 {
            self.3.channels()
        } else if idx == 4 {
            self.4.channels()
        } else if idx == 5 {
            self.5.channels()
        } else if idx == 6 {
            self.6.channels()
        } else if idx == 7 {
            self.7.channels()
        } else if idx == 8 {
            self.8.channels()
        } else if idx == 9 {
            self.9.channels()
        } else if idx == 10 {
            self.10.channels()
        } else {
            self.11.channels()
        }
    }
}

} // verus!
