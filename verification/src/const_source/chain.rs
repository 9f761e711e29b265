use vstd::prelude::*;

use crate::const_source::ConstSource;
use crate::duration::{capped, MAX_DURATION_NANOS};

verus! {

/// The duration of two sources played one after the other: the sum when
/// both are known.
pub open spec fn chained_duration(a: Option<nat>, b: Option<nat>) -> Option<nat> {
    match (a, b) {
        (Some(x), Some(y)) => capped(Some(x + y)),
        _ => None,
    }
}

/// Plays one source and then, once it has ended, another.
pub struct SourceChain<A, B> {
    first: A,
    second: B,
    first_done: bool,
}

impl<A, B> SourceChain<A, B> {
    /// The source played first.
    pub closed spec fn first(&self) -> A {
        self.first
    }

    /// The source played second.
    pub closed spec fn second(&self) -> B {
        self.second
    }

    /// Whether the first source has ended.
    pub closed spec fn first_done(&self) -> bool {
        self.first_done
    }

    /// Plays `first` and then `second`.
    pub fn new(first: A, second: B) -> (r: Self)
        ensures
            r.first() == first,
            r.second() == second,
            !r.first_done(),
    {
        SourceChain { first, second, first_done: false }
    }
}

impl<const SR: u32, const CH: u16, T, A: ConstSource<SR, CH, T>, B: ConstSource<SR, CH, T>> ConstSource<
    SR,
    CH,
    T,
> for SourceChain<A, B> {
    open spec fn wf(&self) -> bool {
        &&& self.first().wf()
        &&& self.second().wf()
    }

    open spec fn remaining(&self) -> Seq<T> {
        if self.first_done() {
            self.second().remaining()
        } else {
            self.first().remaining() + self.second().remaining()
        }
    }

    open spec fn duration(&self) -> Option<nat> {
        chained_duration(self.first().duration(), self.second().duration())
    }

    open spec fn keeps_duration(&self) -> bool {
        self.first().keeps_duration() && self.second().keeps_duration()
    }

    fn next(&mut self) -> (r: Option<T>)
        ensures
            old(self).keeps_duration() ==> final(self).keeps_duration() && final(self).duration()
                == old(self).duration(),
    {
        if !self.first_done {
            let ghost a = self.first.remaining();
            let ghost b = self.second.remaining();
            match self.first.next() {
                Some(sample) => {
                    assert(self.first.remaining() + b =~= (a + b).drop_first());
                    return Some(sample);
                },
                None => {
                    assert(a + b =~= b);
                    self.first_done = true;
                },
            }
        }
        self.second.next()
    }

    fn total_duration_nanos(&self) -> (r: Option<u128>) {
        match (self.first.total_duration_nanos(), self.second.total_duration_nanos()) {
            (Some(x), Some(y)) => {
                if x <= MAX_DURATION_NANOS - y {
                    Some(x + y)
                } else {
                    None
                }
            },
            _ => None,
        }
    }
}

} // verus!
