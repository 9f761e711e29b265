use vstd::prelude::*;

use crate::const_source::ConstSource;
use crate::duration::{MAX_DURATION_NANOS, NANOS_PER_SEC};

verus! {

/// Duration in nanoseconds of `len` interleaved samples.
pub open spec fn buffer_duration(len: nat, sample_rate: nat, channels: nat) -> nat {
    (1_000_000_000 * len / sample_rate / channels) as nat
}

/// The duration of a buffer fits into `std::time::Duration`.
pub proof fn lemma_buffer_duration_fits(len: int, sr: int, ch: int)
    requires
        0 <= len <= usize::MAX,
        sr >= 1,
        ch >= 1,
    ensures
        0 <= 1_000_000_000 * len / sr / ch <= 1_000_000_000 * len <= MAX_DURATION_NANOS,
{
    let a = 1_000_000_000 * len;
    assert(a <= MAX_DURATION_NANOS) by (nonlinear_arith)
        requires a == 1_000_000_000 * len, len <= 18_446_744_073_709_551_615int;
    assert(0 <= a / sr <= a) by (nonlinear_arith)
        requires sr >= 1, a >= 0;
    assert(0 <= (a / sr) / ch <= a / sr) by (nonlinear_arith)
        requires ch >= 1, a / sr >= 0;
}

/// A source that plays back samples held in memory.
#[derive(Clone, Debug)]
pub struct SamplesBuffer<const SR: u32, const CH: u16, T> {
    data: Vec<T>,
    pos: usize,
    duration_nanos: u128,
}

impl<const SR: u32, const CH: u16, T: Copy> SamplesBuffer<SR, CH, T> {
    /// The whole content of the buffer, played or not.
    pub closed spec fn data(&self) -> Seq<T> {
        self.data@
    }

    /// Builds a buffer that plays `data` from the start.
    pub fn new(data: Vec<T>) -> (r: Self)
        requires
            SR > 0,
            CH > 0,
        ensures
            r.wf(),
            r.data() == data@,
            r.remaining() == data@,
            r.duration() == Some(buffer_duration(data@.len(), SR as nat, CH as nat)),
            r.keeps_duration(),
    {
        let len = data.len() as u128;
        let nanos = NANOS_PER_SEC * len / (SR as u128) / (CH as u128);
        proof {
            lemma_buffer_duration_fits(len as int, SR as int, CH as int);
        }
        let r = SamplesBuffer { data, pos: 0, duration_nanos: nanos };
        assert(r.data@.skip(0) =~= r.data@);
        r
    }
}

impl<const SR: u32, const CH: u16, T: Copy> ConstSource<SR, CH, T> for SamplesBuffer<SR, CH, T> {
    closed spec fn wf(&self) -> bool {
        &&& SR > 0
        &&& CH > 0
        &&& self.pos <= self.data@.len()
        &&& self.duration_nanos == buffer_duration(self.data@.len(), SR as nat, CH as nat)
        &&& self.duration_nanos <= MAX_DURATION_NANOS
    }

    closed spec fn remaining(&self) -> Seq<T> {
        self.data@.skip(self.pos as int)
    }

    closed spec fn duration(&self) -> Option<nat> {
        Some(self.duration_nanos as nat)
    }

    closed spec fn keeps_duration(&self) -> bool {
        true
    }

    fn next(&mut self) -> (r: Option<T>)
        ensures
            final(self).data() == old(self).data(),
            final(self).duration() == old(self).duration(),
            old(self).remaining().len() == 0 ==> final(self).remaining() == old(self).remaining(),
    {
        if self.pos < self.data.len() {
            let v = self.data[self.pos];
            self.pos = self.pos + 1;
            assert(self.data@.skip(self.pos as int) =~= self.data@.skip(self.pos - 1).drop_first());
            Some(v)
        } else {
            None
        }
    }

    fn total_duration_nanos(&self) -> (r: Option<u128>) {
        Some(self.duration_nanos)
    }
}

} // verus!
