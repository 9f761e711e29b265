use vstd::prelude::*;

use crate::common::{ChannelCount, SampleRate};
use crate::const_source::buffer::{buffer_duration, lemma_buffer_duration_fits};
use crate::duration::{MAX_DURATION_NANOS, NANOS_PER_SEC};
use crate::fixed_source::FixedSource;

verus! {

/// A source that plays back samples held in memory, with a sample rate and
/// channel count chosen at run time.
#[derive(Clone, Debug)]
pub struct SamplesBuffer<T> {
    channels: ChannelCount,
    sample_rate: SampleRate,
    data: Vec<T>,
    pos: usize,
    duration_nanos: u128,
}

impl<T: Copy> SamplesBuffer<T> {
    /// The whole content of the buffer, played or not.
    pub closed spec fn data(&self) -> Seq<T> {
        self.data@
    }

    /// Builds a buffer that plays `data` from the start.
    pub fn new(channels: ChannelCount, sample_rate: SampleRate, data: Vec<T>) -> (r: Self)
        requires
            channels > 0,
            sample_rate > 0,
        ensures
            r.wf(),
            r.data() == data@,
            r.remaining() == data@,
            r.rate() == sample_rate,
            r.chans() == channels,
            r.duration() == Some(
                buffer_duration(data@.len(), sample_rate as nat, channels as nat),
            ),
    {
        let len = data.len() as u128;
        let nanos = NANOS_PER_SEC * len / (sample_rate as u128) / (channels as u128);
        proof {
            lemma_buffer_duration_fits(len as int, sample_rate as int, channels as int);
        }
        let r = SamplesBuffer { channels, sample_rate, data, pos: 0, duration_nanos: nanos };
        assert(r.data@.skip(0) =~= r.data@);
        r
    }
}

impl<T: Copy> FixedSource<T> for SamplesBuffer<T> {
    closed spec fn wf(&self) -> bool {
        &&& self.sample_rate > 0
        &&& self.channels > 0
        &&& self.pos <= self.data@.len()
        &&& self.duration_nanos == buffer_duration(
            self.data@.len(),
            self.sample_rate as nat,
            self.channels as nat,
        )
        &&& self.duration_nanos <= MAX_DURATION_NANOS
    }

    closed spec fn remaining(&self) -> Seq<T> {
        self.data@.skip(self.pos as int)
    }

    closed spec fn duration(&self) -> Option<nat> {
        Some(self.duration_nanos as nat)
    }

    closed spec fn rate(&self) -> nat {
        self.sample_rate as nat
    }

    closed spec fn chans(&self) -> nat {
        self.channels as nat
    }

    fn next(&mut self) -> (r: Option<T>)
        ensures
            final(self).data() == old(self).data(),
            final(self).duration() == old(self).duration(),
            final(self).rate() == old(self).rate(),
            final(self).chans() == old(self).chans(),
            old(self).remaining().len() == 0 ==> final(self).remaining() == old(self).remaining(),
    {
        if self.pos < self.data.len() {
            let v = self.data[self.pos];
            self.pos = self.pos + 1;
            assert(self.data@.skip(self.pos as int) =~= self.data@.skip(self.pos - 1).drop_first());
            Some(v)
        } else {
            None
        }
    }

    fn sample_rate(&self) -> (r: SampleRate) {
        self.sample_rate
    }

    fn channels(&self) -> (r: ChannelCount) {
        self.channels
    }

    fn total_duration_nanos(&self) -> (r: Option<u128>) {
        Some(self.duration_nanos)
    }
}

} // verus!
