use vstd::prelude::*;

use crate::common::{ChannelCount, SampleRate};
use crate::const_source::ConstSource;
use crate::fixed_source::FixedSource;

verus! {

/// The first `n` items of `s`, or all of them when there are fewer.
pub open spec fn take_at_most<T>(s: Seq<T>, n: nat) -> Seq<T> {
    if n <= s.len() {
        s.take(n as int)
    } else {
        s
    }
}

/// What is taken is a prefix: as many items as asked for, or all of them
/// when there are fewer.
pub proof fn lemma_take_at_most_prefix<T>(s: Seq<T>, n: nat)
    ensures
        take_at_most(s, n).len() == if n <= s.len() {
            n
        } else {
            s.len()
        },
        forall|i: int| 0 <= i < take_at_most(s, n).len() ==> #[trigger] take_at_most(s, n)[i] == s[i],
{
}

/// Taking at most `n` items and then at most `m` of those is taking at most
/// the smaller of the two.
pub proof fn lemma_take_at_most_twice<T>(s: Seq<T>, n: nat, m: nat)
    ensures
        take_at_most(take_at_most(s, n), m) == take_at_most(
            s,
            if n <= m {
                n
            } else {
                m
            },
        ),
{
    assert(take_at_most(take_at_most(s, n), m) =~= take_at_most(
        s,
        if n <= m {
            n
        } else {
            m
        },
    ));
}

/// Taking at most `n` items and then dropping the first one is taking at
/// most `n - 1` items of what follows the first one.
pub proof fn lemma_take_at_most_pop<T>(s: Seq<T>, n: nat)
    requires
        n > 0,
        s.len() > 0,
    ensures
        take_at_most(s, n).len() > 0,
        take_at_most(s, n)[0] == s[0],
        take_at_most(s, n).drop_first() == take_at_most(s.drop_first(), (n - 1) as nat),
{
    assert(take_at_most(s, n).drop_first() =~= take_at_most(s.drop_first(), (n - 1) as nat));
}

/// Plays at most a given number of samples of a source, then ends. The
/// duration it reports is the one of the source it wraps.
pub struct TakeSamples<S> {
    inner: S,
    left: usize,
}

impl<S> TakeSamples<S> {
    /// The wrapped source.
    pub closed spec fn source(&self) -> S {
        self.inner
    }

    /// How many samples may still be played.
    pub closed spec fn allowance(&self) -> nat {
        self.left as nat
    }

    /// Plays at most `samples` samples of `source`.
    pub fn new(source: S, samples: usize) -> (r: Self)
        ensures
            r.source() == source,
            r.allowance() == samples,
    {
        TakeSamples { inner: source, left: samples }
    }

    /// The wrapped source.
    pub fn inner(&self) -> (r: &S)
        ensures
            *r == self.source(),
    {
        &self.inner
    }

    /// Gives the wrapped source back.
    pub fn into_inner(self) -> (r: S)
        ensures
            r == self.source(),
    {
        self.inner
    }
}

impl<const SR: u32, const CH: u16, T, S: ConstSource<SR, CH, T>> ConstSource<SR, CH, T> for TakeSamples<
    S,
> {
    open spec fn wf(&self) -> bool {
        self.source().wf()
    }

    open spec fn remaining(&self) -> Seq<T> {
        take_at_most(self.source().remaining(), self.allowance())
    }

    open spec fn duration(&self) -> Option<nat> {
        self.source().duration()
    }

    open spec fn keeps_duration(&self) -> bool {
        self.source().keeps_duration()
    }

    fn next(&mut self) -> (r: Option<T>)
        ensures
            final(self).allowance() == if old(self).allowance() > 0 {
                (old(self).allowance() - 1) as nat
            } else {
                0
            },
            old(self).allowance() == 0 ==> r is None && final(self).source() == old(self).source(),
            old(self).keeps_duration() ==> final(self).keeps_duration() && final(self).duration()
                == old(self).duration(),
    {
        if self.left > 0 {
            self.left = self.left - 1;
            let ghost before = self.inner.remaining();
            let r = self.inner.next();
            proof {
                if before.len() > 0 {
                    lemma_take_at_most_pop(before, (self.left + 1) as nat);
                }
            }
            r
        } else {
            None
        }
    }

    fn total_duration_nanos(&self) -> (r: Option<u128>) {
        self.inner.total_duration_nanos()
    }
}

impl<T, S: FixedSource<T>> FixedSource<T> for TakeSamples<S> {
    open spec fn wf(&self) -> bool {
        self.source().wf()
    }

    open spec fn remaining(&self) -> Seq<T> {
        take_at_most(self.source().remaining(), self.allowance())
    }

    open spec fn duration(&self) -> Option<nat> {
        self.source().duration()
    }

    open spec fn rate(&self) -> nat {
        self.source().rate()
    }

    open spec fn chans(&self) -> nat {
        self.source().chans()
    }

    fn next(&mut self) -> (r: Option<T>)
        ensures
            final(self).allowance() == if old(self).allowance() > 0 {
                (old(self).allowance() - 1) as nat
            } else {
                0
            },
            old(self).allowance() == 0 ==> r is None && final(self).source() == old(self).source(),
            final(self).rate() == old(self).rate(),
            final(self).chans() == old(self).chans(),
    {
        if self.left > 0 {
            self.left = self.left - 1;
            let ghost before = self.inner.remaining();
            let r = self.inner.next();
            proof {
                if before.len() > 0 {
                    lemma_take_at_most_pop(before, (self.left + 1) as nat);
                }
            }
            r
        } else {
            None
        }
    }

    fn sample_rate(&self) -> (r: SampleRate) {
        self.inner.sample_rate()
    }

    fn channels(&self) -> (r: ChannelCount) {
        self.inner.channels()
    }

    fn total_duration_nanos(&self) -> (r: Option<u128>) {
        self.inner.total_duration_nanos()
    }
}

} // verus!
