use std::marker::PhantomData;
use vstd::prelude::*;

use crate::const_source::list_of_sources::ListOfSources;
use crate::const_source::{pops, ConstSource};
use crate::duration::{
    capped, fits_duration, opt_nat, sum_all_known, sum_all_known_step, sum_known, sum_known_step,
};

pub mod array;
pub mod vec;

verus! {

/// Playing `s[c]` and then everything after it.
pub proof fn lemma_flatten_skip<T>(s: Seq<Seq<T>>, c: int)
    requires
        0 <= c < s.len(),
    ensures
        s.skip(c).flatten() == s[c] + s.skip(c + 1).flatten(),
{
    assert(s.skip(c).drop_first() =~= s.skip(c + 1));
}

/// Nothing is left to play past the last source.
pub proof fn lemma_flatten_skip_end<T>(s: Seq<Seq<T>>)
    ensures
        s.skip(s.len() as int).flatten() == Seq::<T>::empty(),
{
    assert(s.skip(s.len() as int) =~= Seq::<Seq<T>>::empty());
}

/// One step of playing a list of sources one after another: the source at
/// `c` has been asked for a sample, giving `r` and leaving `after`.
pub proof fn lemma_flatten_pop<T>(before: Seq<Seq<T>>, after: Seq<Seq<T>>, c: int, r: Option<T>)
    requires
        0 <= c < before.len(),
        after.len() == before.len(),
        after == before.update(c, after[c]),
        pops(before[c], after[c], r),
    ensures
        r is Some ==> pops(before.skip(c).flatten(), after.skip(c).flatten(), r),
        r is None ==> before.skip(c).flatten() == after.skip(c + 1).flatten(),
{
    lemma_flatten_skip(before, c);
    lemma_flatten_skip(after, c);
    assert(after.skip(c + 1) =~= before.skip(c + 1));
    if r is None {
        assert(before[c] =~= Seq::<T>::empty());
        assert(before[c] + before.skip(c + 1).flatten() =~= before.skip(c + 1).flatten());
    } else {
        let rest = before.skip(c + 1).flatten();
        assert((before[c] + rest).drop_first() =~= after[c] + rest);
        assert((before[c] + rest)[0] == before[c][0]);
    }
}

/// Asks the sources from `*current` on for a sample, moving on to the next
/// source whenever one runs out; stops when none is left.
pub(crate) fn next_in_order<const SR: u32, const CH: u16, T, L: ListOfSources<SR, CH, T>>(
    list: &mut L,
    current: &mut usize,
) -> (r: Option<T>)
    requires
        old(list).wf(),
        *old(current) <= old(list).sources().len(),
    ensures
        final(list).wf(),
        final(list).sources().len() == old(list).sources().len(),
        *final(current) <= final(list).sources().len(),
        pops(
            old(list).sources().skip(*old(current) as int).flatten(),
            final(list).sources().skip(*final(current) as int).flatten(),
            r,
        ),
        old(list).keeps_durations() ==> final(list).keeps_durations() && final(list).durations()
            == old(list).durations(),
        *old(current) >= old(list).sources().len() ==> r is None && *final(list) == *old(list)
            && *final(current) == *old(current),
        r is None ==> *final(current) == final(list).sources().len(),
{
    let ghost start = list.sources().skip(*current as int).flatten();
    loop
        invariant
            list.wf(),
            old(list).keeps_durations() ==> list.keeps_durations() && list.durations() == old(
                list,
            ).durations(),
            list.sources().len() == old(list).sources().len(),
            *current <= list.sources().len(),
            start == list.sources().skip(*current as int).flatten(),
            start == old(list).sources().skip(*old(current) as int).flatten(),
            *old(current) >= old(list).sources().len() ==> *list == *old(list) && *current == *old(
                current,
            ),
        decreases list.sources().len() - *current,
    {
        if *current >= list.len() {
            proof {
                lemma_flatten_skip_end(list.sources());
            }
            return None;
        }
        let ghost before = list.sources();
        let r = list.next(*current);
        proof {
            lemma_flatten_pop(before, list.sources(), *current as int, r);
        }
        if r.is_some() {
            return r;
        }
        assert(start == list.sources().skip(*current + 1).flatten());
        *current = *current + 1;
    }
}

/// Sums the durations of a list's sources, ignoring the unknown ones.
pub(crate) fn sum_known_durations<const SR: u32, const CH: u16, T, L: ListOfSources<SR, CH, T>>(
    list: &L,
) -> (r: Option<u128>)
    requires
        list.wf(),
    ensures
        opt_nat(r) == capped(sum_known(list.durations())),
        fits_duration(opt_nat(r)),
{
    let n = list.len();
    let ghost ds = list.durations();
    let mut acc: Option<u128> = None;
    let mut overflowed = false;
    let mut i: usize = 0;
    assert(ds.take(0) =~= Seq::<Option<nat>>::empty());
    while i < n
        invariant
            n == ds.len(),
            n == list.sources().len(),
            ds == list.durations(),
            list.wf(),
            i <= n,
            overflowed ==> acc is None && !fits_duration(sum_known(ds.take(i as int))),
            !overflowed ==> opt_nat(acc) == sum_known(ds.take(i as int)),
            fits_duration(opt_nat(acc)),
        decreases n - i,
    {
        let d = list.total_duration(i);
        let (a, o) = sum_known_step(acc, overflowed, d, Ghost(ds.take(i as int)));
        acc = a;
        overflowed = o;
        assert(ds.take(i as int).push(ds[i as int]) =~= ds.take(i + 1));
        i = i + 1;
    }
    assert(ds.take(n as int) =~= ds);
    acc
}

/// Plays the sources of a list one after another.
#[derive(Debug)]
pub struct Queued<const SR: u32, const CH: u16, L> {
    inner: L,
    current: u8,
}

impl<const SR: u32, const CH: u16, L> Queued<SR, CH, L> {
    /// Whether every source has been played to its end; a drained queue
    /// stays as it is and yields nothing more.
    pub closed spec fn drained<T>(&self) -> bool where L: ListOfSources<SR, CH, T> {
        self.current >= self.inner.sources().len()
    }
}

impl<const SR: u32, const CH: u16, T, L: ListOfSources<SR, CH, T>> ConstSource<
    SR,
    CH,
    T,
> for Queued<SR, CH, L> {
    closed spec fn wf(&self) -> bool {
        &&& self.inner.wf()
        &&& self.inner.sources().len() <= 255
        &&& self.current <= self.inner.sources().len()
    }

    closed spec fn remaining(&self) -> Seq<T> {
        self.inner.sources().skip(self.current as int).flatten()
    }

    closed spec fn duration(&self) -> Option<nat> {
        capped(sum_all_known(self.inner.durations()))
    }

    closed spec fn keeps_duration(&self) -> bool {
        self.inner.keeps_durations()
    }

    fn next(&mut self) -> (r: Option<T>)
        ensures
            old(self).drained() ==> r is None && *final(self) == *old(self),
            r is None ==> final(self).drained(),
    {
        if (self.current as usize) >= self.inner.len() {
            proof {
                lemma_flatten_skip_end(self.inner.sources());
            }
            return None;
        }
        let ghost first = self.inner.sources();
        let r = self.inner.next(self.current as usize);
        proof {
            lemma_flatten_pop(first, self.inner.sources(), self.current as int, r);
        }
        if r.is_some() {
            return r;
        }
        assert(old(self).remaining() == self.inner.sources().skip(self.current + 1).flatten());
        loop
            invariant
                self.inner.wf(),
                self.inner.sources().len() <= 255,
                self.current < self.inner.sources().len(),
                old(self).current < old(self).inner.sources().len(),
                old(self).remaining() == self.inner.sources().skip(self.current + 1).flatten(),
                old(self).inner.keeps_durations() ==> self.inner.keeps_durations()
                    && self.inner.durations() == old(self).inner.durations(),
            decreases self.inner.sources().len() - self.current,
        {
            self.current = self.current + 1;
            if self.current as usize >= self.inner.len() {
                proof {
                    lemma_flatten_skip_end(self.inner.sources());
                }
                return None;
            }
            let ghost before = self.inner.sources();
            let r = self.inner.next(self.current as usize);
            proof {
                lemma_flatten_pop(before, self.inner.sources(), self.current as int, r);
            }
            if r.is_some() {
                return r;
            }
            assert(old(self).remaining() == self.inner.sources().skip(self.current + 1).flatten());
        }
    }

    fn total_duration_nanos(&self) -> (r: Option<u128>) {
        let n = self.inner.len();
        let ghost ds = self.inner.durations();
        let mut acc: Option<u128> = Some(0);
        let mut i: usize = 0;
        assert(ds.take(0) =~= Seq::<Option<nat>>::empty());
        while i < n
            invariant
                n == ds.len(),
                n == self.inner.sources().len(),
                ds == self.inner.durations(),
                self.inner.wf(),
                i <= n,
                opt_nat(acc) == capped(sum_all_known(ds.take(i as int))),
                fits_duration(opt_nat(acc)),
            decreases n - i,
        {
            let d = self.inner.total_duration(i);
            acc = sum_all_known_step(acc, d, Ghost(ds.take(i as int)));
            assert(ds.take(i as int).push(ds[i as int]) =~= ds.take(i + 1));
            i = i + 1;
        }
        assert(ds.take(n as int) =~= ds);
        acc
    }
}

/// Turns a list of sources into one source that plays them one after another.
pub trait IntoQueued<const SR: u32, const CH: u16, T>: ListOfSources<SR, CH, T> {
    fn into_queued(self) -> (r: Queued<SR, CH, Self>)
        requires
            self.wf(),
            self.sources().len() <= 255,
        ensures
            r.wf(),
            r.remaining() == self.sources().flatten(),
            r.duration() == capped(sum_all_known(self.durations())),
            r.keeps_duration() == self.keeps_durations(),
    ;
}

impl<const SR: u32, const CH: u16, T, L: ListOfSources<SR, CH, T>> IntoQueued<SR, CH, T> for L {
    fn into_queued(self) -> (r: Queued<SR, CH, Self>) {
        let r = Queued { inner: self, current: 0 };
        assert(r.inner.sources().skip(0) =~= r.inner.sources());
        r
    }
}

} // verus!
