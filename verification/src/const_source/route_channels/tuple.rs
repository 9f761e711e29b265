use vstd::prelude::*;

use crate::const_source::route_channels::{combined_output, lemma_combined_step, channel_owner};
use crate::const_source::ConstSource;
use crate::duration::{fits_duration, max_known, max_known_step, opt_nat};

verus! {

/// Interleaves the channels of a tuple of 2 sources, with `CH1`, `CH2`, ...
/// channels each, into one source with `CH` channels.
pub struct CombinedChannels2Tuple<const SR: u32, const CH: u16, const CH1: u16, const CH2: u16, S1, S2> {
    sources: (S1, S2),
    current: u16,
}

impl<
    const SR: u32,
    const CH: u16,
    const CH1: u16, const CH2: u16,
    T,
    S1: ConstSource<SR, CH1, T>,
    S2: ConstSource<SR, CH2, T>,
> ConstSource<SR, CH, T> for CombinedChannels2Tuple<SR, CH, CH1, CH2, S1, S2> {
    closed spec fn wf(&self) -> bool {
        &&& self.sources.0.wf()
        &&& self.sources.1.wf()
        &&& CH > 0
        &&& CH1 + CH2 == CH
        &&& self.current < CH
    }

    closed spec fn remaining(&self) -> Seq<T> {
        combined_output(seq![self.sources.0.remaining(), self.sources.1.remaining()], seq![CH1 as nat, CH2 as nat], self.current as int, CH as int)
    }

    closed spec fn duration(&self) -> Option<nat> {
        max_known(seq![self.sources.0.duration(), self.sources.1.duration()])
    }

    fn next(&mut self) -> (r: Option<T>) {
        let ghost before = seq![self.sources.0.remaining(), self.sources.1.remaining()];
        let ghost chans = seq![CH1 as nat, CH2 as nat];
        let ghost cur = self.current as int;
        let mut channel: u16 = 0;
        assert(channel + CH1 <= CH);
        if channel <= self.current && self.current < channel + CH1 {
            assert(channel_owner(chans, 0, 0, cur) == 0);
            self.current = (self.current + 1) % CH;
            let r = self.sources.0.next();
            proof {
                assert(seq![self.sources.0.remaining(), self.sources.1.remaining()] =~= before.update(0, seq![self.sources.0.remaining(), self.sources.1.remaining()][0]));
                lemma_combined_step(before, seq![self.sources.0.remaining(), self.sources.1.remaining()], chans, cur, CH as int, r);
            }
            return r;
        }
        channel = channel + CH1;
        assert(channel_owner(chans, 0, 0, cur) == channel_owner(chans, 1, channel as int, cur));
        assert(channel + CH2 <= CH);
        if channel <= self.current && self.current < channel + CH2 {
            assert(channel_owner(chans, 0, 0, cur) == 1);
            self.current = (self.current + 1) % CH;
            let r = self.sources.1.next();
            proof {
                assert(seq![self.sources.0.remaining(), self.sources.1.remaining()] =~= before.update(1, seq![self.sources.0.remaining(), self.sources.1.remaining()][1]));
                lemma_combined_step(before, seq![self.sources.0.remaining(), self.sources.1.remaining()], chans, cur, CH as int, r);
            }
            return r;
        }
        None
    }

    fn total_duration_nanos(&self) -> (r: Option<u128>) {
        let ghost ds = seq![self.sources.0.duration(), self.sources.1.duration()];
        let mut acc: Option<u128> = None;
        assert(ds.take(0) =~= Seq::<Option<nat>>::empty());
        let d = self.sources.0.total_duration_nanos();
        acc = max_known_step(acc, d, Ghost(ds.take(0)));
        assert(ds.take(0).push(ds[0]) =~= ds.take(1));
        let d = self.sources.1.total_duration_nanos();
        acc = max_known_step(acc, d, Ghost(ds.take(1)));
        assert(ds.take(1).push(ds[1]) =~= ds.take(2));
        assert(ds.take(2) =~= ds);
        acc
    }
}

/// Combines the channels of a tuple of 2 sources into one source; the
/// output channel count must be the sum of the inputs' channel counts.
pub trait CH2T<const SR: u32, const CH1: u16, const CH2: u16, T, S1, S2> {
    fn combine_channels<const CH: u16>(self) -> (r: CombinedChannels2Tuple<SR, CH, CH1, CH2, S1, S2>)
        requires
            CH > 0,
            CH1 + CH2 == CH,
    ;
}

impl<
    const SR: u32,
    const CH1: u16, const CH2: u16,
    T,
    S1: ConstSource<SR, CH1, T>,
    S2: ConstSource<SR, CH2, T>,
> CH2T<SR, CH1, CH2, T, S1, S2> for (S1, S2) {
    fn combine_channels<const CH: u16>(self) -> (r: CombinedChannels2Tuple<SR, CH, CH1, CH2, S1, S2>)
        ensures
            self.0.wf() && self.1.wf() ==> r.wf(),
            r.remaining() == combined_output(seq![self.0.remaining(), self.1.remaining()], seq![CH1 as nat, CH2 as nat], 0, CH as int),
            r.duration() == max_known(seq![self.0.duration(), self.1.duration()]),
    {
        CombinedChannels2Tuple { sources: self, current: 0 }
    }
}

/// Interleaves the channels of a tuple of 3 sources, with `CH1`, `CH2`, ...
/// channels each, into one source with `CH` channels.
pub struct CombinedChannels3Tuple<const SR: u32, const CH: u16, const CH1: u16, const CH2: u16, const CH3: u16, S1, S2, S3> {
    sources: (S1, S2, S3),
    current: u16,
}

impl<
    const SR: u32,
    const CH: u16,
    const CH1: u16, const CH2: u16, const CH3: u16,
    T,
    S1: ConstSource<SR, CH1, T>,
    S2: ConstSource<SR, CH2, T>,
    S3: ConstSource<SR, CH3, T>,
> ConstSource<SR, CH, T> for CombinedChannels3Tuple<SR, CH, CH1, CH2, CH3, S1, S2, S3> {
    closed spec fn wf(&self) -> bool {
        &&& self.sources.0.wf()
        &&& self.sources.1.wf()
        &&& self.sources.2.wf()
        &&& CH > 0
        &&& CH1 + CH2 + CH3 == CH
        &&& self.current < CH
    }

    closed spec fn remaining(&self) -> Seq<T> {
        combined_output(seq![self.sources.0.remaining(), self.sources.1.remaining(), self.sources.2.remaining()], seq![CH1 as nat, CH2 as nat, CH3 as nat], self.current as int, CH as int)
    }

    closed spec fn duration(&self) -> Option<nat> {
        max_known(seq![self.sources.0.duration(), self.sources.1.duration(), self.sources.2.duration()])
    }

    fn next(&mut self) -> (r: Option<T>) {
        let ghost before = seq![self.sources.0.remaining(), self.sources.1.remaining(), self.sources.2.remaining()];
        let ghost chans = seq![CH1 as nat, CH2 as nat, CH3 as nat];
        let ghost cur = self.current as int;
        let mut channel: u16 = 0;
        assert(channel + CH1 <= CH);
        if channel <= self.current && self.current < channel + CH1 {
            assert(channel_owner(chans, 0, 0, cur) == 0);
            self.current = (self.current + 1) % CH;
            let r = self.sources.0.next();
            proof {
                assert(seq![self.sources.0.remaining(), self.sources.1.remaining(), self.sources.2.remaining()] =~= before.update(0, seq![self.sources.0.remaining(), self.sources.1.remaining(), self.sources.2.remaining()][0]));
                lemma_combined_step(before, seq![self.sources.0.remaining(), self.sources.1.remaining(), self.sources.2.remaining()], chans, cur, CH as int, r);
            }
            return r;
        }
        channel = channel + CH1;
        assert(channel_owner(chans, 0, 0, cur) == channel_owner(chans, 1, channel as int, cur));
        assert(channel + CH2 <= CH);
        if channel <= self.current && self.current < channel + CH2 {
            assert(channel_owner(chans, 0, 0, cur) == 1);
            self.current = (self.current + 1) % CH;
            let r = self.sources.1.next();
            proof {
                assert(seq![self.sources.0.remaining(), self.sources.1.remaining(), self.sources.2.remaining()] =~= before.update(1, seq![self.sources.0.remaining(), self.sources.1.remaining(), self.sources.2.remaining()][1]));
                lemma_combined_step(before, seq![self.sources.0.remaining(), self.sources.1.remaining(), self.sources.2.remaining()], chans, cur, CH as int, r);
            }
            return r;
        }
        channel = channel + CH2;
        assert(channel_owner(chans, 0, 0, cur) == channel_owner(chans, 2, channel as int, cur));
        assert(channel + CH3 <= CH);
        if channel <= self.current && self.current < channel + CH3 {
            assert(channel_owner(chans, 0, 0, cur) == 2);
            self.current = (self.current + 1) % CH;
            let r = self.sources.2.next();
            proof {
                assert(seq![self.sources.0.remaining(), self.sources.1.remaining(), self.sources.2.remaining()] =~= before.update(2, seq![self.sources.0.remaining(), self.sources.1.remaining(), self.sources.2.remaining()][2]));
                lemma_combined_step(before, seq![self.sources.0.remaining(), self.sources.1.remaining(), self.sources.2.remaining()], chans, cur, CH as int, r);
            }
            return r;
        }
        None
    }

    fn total_duration_nanos(&self) -> (r: Option<u128>) {
        let ghost ds = seq![self.sources.0.duration(), self.sources.1.duration(), self.sources.2.duration()];
        let mut acc: Option<u128> = None;
        assert(ds.take(0) =~= Seq::<Option<nat>>::empty());
        let d = self.sources.0.total_duration_nanos();
        acc = max_known_step(acc, d, Ghost(ds.take(0)));
        assert(ds.take(0).push(ds[0]) =~= ds.take(1));
        let d = self.sources.1.total_duration_nanos();
        acc = max_known_step(acc, d, Ghost(ds.take(1)));
        assert(ds.take(1).push(ds[1]) =~= ds.take(2));
        let d = self.sources.2.total_duration_nanos();
        acc = max_known_step(acc, d, Ghost(ds.take(2)));
        assert(ds.take(2).push(ds[2]) =~= ds.take(3));
        assert(ds.take(3) =~= ds);
        acc
    }
}

/// Combines the channels of a tuple of 3 sources into one source; the
/// output channel count must be the sum of the inputs' channel counts.
pub trait CH3T<const SR: u32, const CH1: u16, const CH2: u16, const CH3: u16, T, S1, S2, S3> {
    fn combine_channels<const CH: u16>(self) -> (r: CombinedChannels3Tuple<SR, CH, CH1, CH2, CH3, S1, S2, S3>)
        requires
            CH > 0,
            CH1 + CH2 + CH3 == CH,
    ;
}

impl<
    const SR: u32,
    const CH1: u16, const CH2: u16, const CH3: u16,
    T,
    S1: ConstSource<SR, CH1, T>,
    S2: ConstSource<SR, CH2, T>,
    S3: ConstSource<SR, CH3, T>,
> CH3T<SR, CH1, CH2, CH3, T, S1, S2, S3> for (S1, S2, S3) {
    fn combine_channels<const CH: u16>(self) -> (r: CombinedChannels3Tuple<SR, CH, CH1, CH2, CH3, S1, S2, S3>)
        ensures
            self.0.wf() && self.1.wf() && self.2.wf() ==> r.wf(),
            r.remaining() == combined_output(seq![self.0.remaining(), self.1.remaining(), self.2.remaining()], seq![CH1 as nat, CH2 as nat, CH3 as nat], 0, CH as int),
            r.duration() == max_known(seq![self.0.duration(), self.1.duration(), self.2.duration()]),
    {
        CombinedChannels3Tuple { sources: self, current: 0 }
    }
}

/// Interleaves the channels of a tuple of 4 sources, with `CH1`, `CH2`, ...
/// channels each, into one source with `CH` channels.
pub struct CombinedChannels4Tuple<const SR: u32, const CH: u16, const CH1: u16, const CH2: u16, const CH3: u16, const CH4: u16, S1, S2, S3, S4> {
    sources: (S1, S2, S3, S4),
    current: u16,
}

impl<
    const SR: u32,
    const CH: u16,
    const CH1: u16, const CH2: u16, const CH3: u16, const CH4: u16,
    T,
    S1: ConstSource<SR, CH1, T>,
    S2: ConstSource<SR, CH2, T>,
    S3: ConstSource<SR, CH3, T>,
    S4: ConstSource<SR, CH4, T>,
> ConstSource<SR, CH, T> for CombinedChannels4Tuple<SR, CH, CH1, CH2, CH3, CH4, S1, S2, S3, S4> {
    closed spec fn wf(&self) -> bool {
        &&& self.sources.0.wf()
        &&& self.sources.1.wf()
        &&& self.sources.2.wf()
        &&& self.sources.3.wf()
        &&& CH > 0
        &&& CH1 + CH2 + CH3 + CH4 == CH
        &&& self.current < CH
    }

    closed spec fn remaining(&self) -> Seq<T> {
        combined_output(seq![self.sources.0.remaining(), self.sources.1.remaining(), self.sources.2.remaining(), self.sources.3.remaining()], seq![CH1 as nat, CH2 as nat, CH3 as nat, CH4 as nat], self.current as int, CH as int)
    }

    closed spec fn duration(&self) -> Option<nat> {
        max_known(seq![self.sources.0.duration(), self.sources.1.duration(), self.sources.2.duration(), self.sources.3.duration()])
    }

    fn next(&mut self) -> (r: Option<T>) {
        let ghost before = seq![self.sources.0.remaining(), self.sources.1.remaining(), self.sources.2.remaining(), self.sources.3.remaining()];
        let ghost chans = seq![CH1 as nat, CH2 as nat, CH3 as nat, CH4 as nat];
        let ghost cur = self.current as int;
        let mut channel: u16 = 0;
        assert(channel + CH1 <= CH);
        if channel <= self.current && self.current < channel + CH1 {
            assert(channel_owner(chans, 0, 0, cur) == 0);
            self.current = (self.current + 1) % CH;
            let r = self.sources.0.next();
            proof {
                assert(seq![self.sources.0.remaining(), self.sources.1.remaining(), self.sources.2.remaining(), self.sources.3.remaining()] =~= before.update(0, seq![self.sources.0.remaining(), self.sources.1.remaining(), self.sources.2.remaining(), self.sources.3.remaining()][0]));
                lemma_combined_step(before, seq![self.sources.0.remaining(), self.sources.1.remaining(), self.sources.2.remaining(), self.sources.3.remaining()], chans, cur, CH as int, r);
            }
            return r;
        }
        channel = channel + CH1;
        assert(channel_owner(chans, 0, 0, cur) == channel_owner(chans, 1, channel as int, cur));
        assert(channel + CH2 <= CH);
        if channel <= self.current && self.current < channel + CH2 {
            assert(channel_owner(chans, 0, 0, cur) == 1);
            self.current = (self.current + 1) % CH;
            let r = self.sources.1.next();
            proof {
                assert(seq![self.sources.0.remaining(), self.sources.1.remaining(), self.sources.2.remaining(), self.sources.3.remaining()] =~= before.update(1, seq![self.sources.0.remaining(), self.sources.1.remaining(), self.sources.2.remaining(), self.sources.3.remaining()][1]));
                lemma_combined_step(before, seq![self.sources.0.remaining(), self.sources.1.remaining(), self.sources.2.remaining(), self.sources.3.remaining()], chans, cur, CH as int, r);
            }
            return r;
        }
        channel = channel + CH2;
        assert(channel_owner(chans, 0, 0, cur) == channel_owner(chans, 2, channel as int, cur));
        assert(channel + CH3 <= CH);
        if channel <= self.current && self.current < channel + CH3 {
            assert(channel_owner(chans, 0, 0, cur) == 2);
            self.current = (self.current + 1) % CH;
            let r = self.sources.2.next();
            proof {
                assert(seq![self.sources.0.remaining(), self.sources.1.remaining(), self.sources.2.remaining(), self.sources.3.remaining()] =~= before.update(2, seq![self.sources.0.remaining(), self.sources.1.remaining(), self.sources.2.remaining(), self.sources.3.remaining()][2]));
                lemma_combined_step(before, seq![self.sources.0.remaining(), self.sources.1.remaining(), self.sources.2.remaining(), self.sources.3.remaining()], chans, cur, CH as int, r);
            }
            return r;
        }
        channel = channel + CH3;
        assert(channel_owner(chans, 0, 0, cur) == channel_owner(chans, 3, channel as int, cur));
        assert(channel + CH4 <= CH);
        if channel <= self.current && self.current < channel + CH4 {
            assert(channel_owner(chans, 0, 0, cur) == 3);
            self.current = (self.current + 1) % CH;
            let r = self.sources.3.next();
            proof {
                assert(seq![self.sources.0.remaining(), self.sources.1.remaining(), self.sources.2.remaining(), self.sources.3.remaining()] =~= before.update(3, seq![self.sources.0.remaining(), self.sources.1.remaining(), self.sources.2.remaining(), self.sources.3.remaining()][3]));
                lemma_combined_step(before, seq![self.sources.0.remaining(), self.sources.1.remaining(), self.sources.2.remaining(), self.sources.3.remaining()], chans, cur, CH as int, r);
            }
            return r;
        }
        None
    }

    fn total_duration_nanos(&self) -> (r: Option<u128>) {
        let ghost ds = seq![self.sources.0.duration(), self.sources.1.duration(), self.sources.2.duration(), self.sources.3.duration()];
        let mut acc: Option<u128> = None;
        assert(ds.take(0) =~= Seq::<Option<nat>>::empty());
        let d = self.sources.0.total_duration_nanos();
        acc = max_known_step(acc, d, Ghost(ds.take(0)));
        assert(ds.take(0).push(ds[0]) =~= ds.take(1));
        let d = self.sources.1.total_duration_nanos();
        acc = max_known_step(acc, d, Ghost(ds.take(1)));
        assert(ds.take(1).push(ds[1]) =~= ds.take(2));
        let d = self.sources.2.total_duration_nanos();
        acc = max_known_step(acc, d, Ghost(ds.take(2)));
        assert(ds.take(2).push(ds[2]) =~= ds.take(3));
        let d = self.sources.3.total_duration_nanos();
        acc = max_known_step(acc, d, Ghost(ds.take(3)));
        assert(ds.take(3).push(ds[3]) =~= ds.take(4));
        assert(ds.take(4) =~= ds);
        acc
    }
}

/// Combines the channels of a tuple of 4 sources into one source; the
/// output channel count must be the sum of the inputs' channel counts.
pub trait CH4T<const SR: u32, const CH1: u16, const CH2: u16, const CH3: u16, const CH4: u16, T, S1, S2, S3, S4> {
    fn combine_channels<const CH: u16>(self) -> (r: CombinedChannels4Tuple<SR, CH, CH1, CH2, CH3, CH4, S1, S2, S3, S4>)
        requires
            CH > 0,
            CH1 + CH2 + CH3 + CH4 == CH,
    ;
}

impl<
    const SR: u32,
    const CH1: u16, const CH2: u16, const CH3: u16, const CH4: u16,
    T,
    S1: ConstSource<SR, CH1, T>,
    S2: ConstSource<SR, CH2, T>,
    S3: ConstSource<SR, CH3, T>,
    S4: ConstSource<SR, CH4, T>,
> CH4T<SR, CH1, CH2, CH3, CH4, T, S1, S2, S3, S4> for (S1, S2, S3, S4) {
    fn combine_channels<const CH: u16>(self) -> (r: CombinedChannels4Tuple<SR, CH, CH1, CH2, CH3, CH4, S1, S2, S3, S4>)
        ensures
            self.0.wf() && self.1.wf() && self.2.wf() && self.3.wf() ==> r.wf(),
            r.remaining() == combined_output(seq![self.0.remaining(), self.1.remaining(), self.2.remaining(), self.3.remaining()], seq![CH1 as nat, CH2 as nat, CH3 as nat, CH4 as nat], 0, CH as int),
            r.duration() == max_known(seq![self.0.duration(), self.1.duration(), self.2.duration(), self.3.duration()]),
    {
        CombinedChannels4Tuple { sources: self, current: 0 }
    }
}

/// Interleaves the channels of a tuple of 5 sources, with `CH1`, `CH2`, ...
/// channels each, into one source with `CH` channels.
pub struct CombinedChannels5Tuple<const SR: u32, const CH: u16, const CH1: u16, const CH2: u16, const CH3: u16, const CH4: u16, const CH5: u16, S1, S2, S3, S4, S5> {
    sources: (S1, S2, S3, S4, S5),
    current: u16,
}

impl<
    const SR: u32,
    const CH: u16,
    const CH1: u16, const CH2: u16, const CH3: u16, const CH4: u16, const CH5: u16,
    T,
    S1: ConstSource<SR, CH1, T>,
    S2: ConstSource<SR, CH2, T>,
    S3: ConstSource<SR, CH3, T>,
    S4: ConstSource<SR, CH4, T>,
    S5: ConstSource<SR, CH5, T>,
> ConstSource<SR, CH, T> for CombinedChannels5Tuple<SR, CH, CH1, CH2, CH3, CH4, CH5, S1, S2, S3, S4, S5> {
    closed spec fn wf(&self) -> bool {
        &&& self.sources.0.wf()
        &&& self.sources.1.wf()
        &&& self.sources.2.wf()
        &&& self.sources.3.wf()
        &&& self.sources.4.wf()
        &&& CH > 0
        &&& CH1 + CH2 + CH3 + CH4 + CH5 == CH
        &&& self.current < CH
    }

    closed spec fn remaining(&self) -> Seq<T> {
        combined_output(seq![self.sources.0.remaining(), self.sources.1.remaining(), self.sources.2.remaining(), self.sources.3.remaining(), self.sources.4.remaining()], seq![CH1 as nat, CH2 as nat, CH3 as nat, CH4 as nat, CH5 as nat], self.current as int, CH as int)
    }

    closed spec fn duration(&self) -> Option<nat> {
        max_known(seq![self.sources.0.duration(), self.sources.1.duration(), self.sources.2.duration(), self.sources.3.duration(), self.sources.4.duration()])
    }

    fn next(&mut self) -> (r: Option<T>) {
        let ghost before = seq![self.sources.0.remaining(), self.sources.1.remaining(), self.sources.2.remaining(), self.sources.3.remaining(), self.sources.4.remaining()];
        let ghost chans = seq![CH1 as nat, CH2 as nat, CH3 as nat, CH4 as nat, CH5 as nat];
        let ghost cur = self.current as int;
        let mut channel: u16 = 0;
        assert(channel + CH1 <= CH);
        if channel <= self.current && self.current < channel + CH1 {
            assert(channel_owner(chans, 0, 0, cur) == 0);
            self.current = (self.current + 1) % CH;
            let r = self.sources.0.next();
            proof {
                assert(seq![self.sources.0.remaining(), self.sources.1.remaining(), self.sources.2.remaining(), self.sources.3.remaining(), self.sources.4.remaining()] =~= before.update(0, seq![self.sources.0.remaining(), self.sources.1.remaining(), self.sources.2.remaining(), self.sources.3.remaining(), self.sources.4.remaining()][0]));
                lemma_combined_step(before, seq![self.sources.0.remaining(), self.sources.1.remaining(), self.sources.2.remaining(), self.sources.3.remaining(), self.sources.4.remaining()], chans, cur, CH as int, r);
            }
            return r;
        }
        channel = channel + CH1;
        assert(channel_owner(chans, 0, 0, cur) == channel_owner(chans, 1, channel as int, cur));
        assert(channel + CH2 <= CH);
        if channel <= self.current && self.current < channel + CH2 {
            assert(channel_owner(chans, 0, 0, cur) == 1);
            self.current = (self.current + 1) % CH;
            let r = self.sources.1.next();
            proof {
                assert(seq![self.sources.0.remaining(), self.sources.1.remaining(), self.sources.2.remaining(), self.sources.3.remaining(), self.sources.4.remaining()] =~= before.update(1, seq![self.sources.0.remaining(), self.sources.1.remaining(), self.sources.2.remaining(), self.sources.3.remaining(), self.sources.4.remaining()][1]));
                lemma_combined_step(before, seq![self.sources.0.remaining(), self.sources.1.remaining(), self.sources.2.remaining(), self.sources.3.remaining(), self.sources.4.remaining()], chans, cur, CH as int, r);
            }
            return r;
        }
        channel = channel + CH2;
        assert(channel_owner(chans, 0, 0, cur) == channel_owner(chans, 2, channel as int, cur));
        assert(channel + CH3 <= CH);
        if channel <= self.current && self.current < channel + CH3 {
            assert(channel_owner(chans, 0, 0, cur) == 2);
            self.current = (self.current + 1) % CH;
            let r = self.sources.2.next();
            proof {
                assert(seq![self.sources.0.remaining(), self.sources.1.remaining(), self.sources.2.remaining(), self.sources.3.remaining(), self.sources.4.remaining()] =~= before.update(2, seq![self.sources.0.remaining(), self.sources.1.remaining(), self.sources.2.remaining(), self.sources.3.remaining(), self.sources.4.remaining()][2]));
                lemma_combined_step(before, seq![self.sources.0.remaining(), self.sources.1.remaining(), self.sources.2.remaining(), self.sources.3.remaining(), self.sources.4.remaining()], chans, cur, CH as int, r);
            }
            return r;
        }
        channel = channel + CH3;
        assert(channel_owner(chans, 0, 0, cur) == channel_owner(chans, 3, channel as int, cur));
        assert(channel + CH4 <= CH);
        if channel <= self.current && self.current < channel + CH4 {
            assert(channel_owner(chans, 0, 0, cur) == 3);
            self.current = (self.current + 1) % CH;
            let r = self.sources.3.next();
            proof {
                assert(seq![self.sources.0.remaining(), self.sources.1.remaining(), self.sources.2.remaining(), self.sources.3.remaining(), self.sources.4.remaining()] =~= before.update(3, seq![self.sources.0.remaining(), self.sources.1.remaining(), self.sources.2.remaining(), self.sources.3.remaining(), self.sources.4.remaining()][3]));
                lemma_combined_step(before, seq![self.sources.0.remaining(), self.sources.1.remaining(), self.sources.2.remaining(), self.sources.3.remaining(), self.sources.4.remaining()], chans, cur, CH as int, r);
            }
            return r;
        }
        channel = channel + CH4;
        assert(channel_owner(chans, 0, 0, cur) == channel_owner(chans, 4, channel as int, cur));
        assert(channel + CH5 <= CH);
        if channel <= self.current && self.current < channel + CH5 {
            assert(channel_owner(chans, 0, 0, cur) == 4);
            self.current = (self.current + 1) % CH;
            let r = self.sources.4.next();
            proof {
                assert(seq![self.sources.0.remaining(), self.sources.1.remaining(), self.sources.2.remaining(), self.sources.3.remaining(), self.sources.4.remaining()] =~= before.update(4, seq![self.sources.0.remaining(), self.sources.1.remaining(), self.sources.2.remaining(), self.sources.3.remaining(), self.sources.4.remaining()][4]));
                lemma_combined_step(before, seq![self.sources.0.remaining(), self.sources.1.remaining(), self.sources.2.remaining(), self.sources.3.remaining(), self.sources.4.remaining()], chans, cur, CH as int, r);
            }
            return r;
        }
        None
    }

    fn total_duration_nanos(&self) -> (r: Option<u128>) {
        let ghost ds = seq![self.sources.0.duration(), self.sources.1.duration(), self.sources.2.duration(), self.sources.3.duration(), self.sources.4.duration()];
        let mut acc: Option<u128> = None;
        assert(ds.take(0) =~= Seq::<Option<nat>>::empty());
        let d = self.sources.0.total_duration_nanos();
        acc = max_known_step(acc, d, Ghost(ds.take(0)));
        assert(ds.take(0).push(ds[0]) =~= ds.take(1));
        let d = self.sources.1.total_duration_nanos();
        acc = max_known_step(acc, d, Ghost(ds.take(1)));
        assert(ds.take(1).push(ds[1]) =~= ds.take(2));
        let d = self.sources.2.total_duration_nanos();
        acc = max_known_step(acc, d, Ghost(ds.take(2)));
        assert(ds.take(2).push(ds[2]) =~= ds.take(3));
        let d = self.sources.3.total_duration_nanos();
        acc = max_known_step(acc, d, Ghost(ds.take(3)));
        assert(ds.take(3).push(ds[3]) =~= ds.take(4));
        let d = self.sources.4.total_duration_nanos();
        acc = max_known_step(acc, d, Ghost(ds.take(4)));
        assert(ds.take(4).push(ds[4]) =~= ds.take(5));
        assert(ds.take(5) =~= ds);
        acc
    }
}

/// Combines the channels of a tuple of 5 sources into one source; the
/// output channel count must be the sum of the inputs' channel counts.
pub trait CH5T<const SR: u32, const CH1: u16, const CH2: u16, const CH3: u16, const CH4: u16, const CH5: u16, T, S1, S2, S3, S4, S5> {
    fn combine_channels<const CH: u16>(self) -> (r: CombinedChannels5Tuple<SR, CH, CH1, CH2, CH3, CH4, CH5, S1, S2, S3, S4, S5>)
        requires
            CH > 0,
            CH1 + CH2 + CH3 + CH4 + CH5 == CH,
    ;
}

impl<
    const SR: u32,
    const CH1: u16, const CH2: u16, const CH3: u16, const CH4: u16, const CH5: u16,
    T,
    S1: ConstSource<SR, CH1, T>,
    S2: ConstSource<SR, CH2, T>,
    S3: ConstSource<SR, CH3, T>,
    S4: ConstSource<SR, CH4, T>,
    S5: ConstSource<SR, CH5, T>,
> CH5T<SR, CH1, CH2, CH3, CH4, CH5, T, S1, S2, S3, S4, S5> for (S1, S2, S3, S4, S5) {
    fn combine_channels<const CH: u16>(self) -> (r: CombinedChannels5Tuple<SR, CH, CH1, CH2, CH3, CH4, CH5, S1, S2, S3, S4, S5>)
        ensures
            self.0.wf() && self.1.wf() && self.2.wf() && self.3.wf() && self.4.wf() ==> r.wf(),
            r.remaining() == combined_output(seq![self.0.remaining(), self.1.remaining(), self.2.remaining(), self.3.remaining(), self.4.remaining()], seq![CH1 as nat, CH2 as nat, CH3 as nat, CH4 as nat, CH5 as nat], 0, CH as int),
            r.duration() == max_known(seq![self.0.duration(), self.1.duration(), self.2.duration(), self.3.duration(), self.4.duration()]),
    {
        CombinedChannels5Tuple { sources: self, current: 0 }
    }
}

/// Interleaves the channels of a tuple of 6 sources, with `CH1`, `CH2`, ...
/// channels each, into one source with `CH` channels.
pub struct CombinedChannels6Tuple<const SR: u32, const CH: u16, const CH1: u16, const CH2: u16, const CH3: u16, const CH4: u16, const CH5: u16, const CH6: u16, S1, S2, S3, S4, S5, S6> {
    sources: (S1, S2, S3, S4, S5, S6),
    current: u16,
}

impl<
    const SR: u32,
    const CH: u16,
    const CH1: u16, const CH2: u16, const CH3: u16, const CH4: u16, const CH5: u16, const CH6: u16,
    T,
    S1: ConstSource<SR, CH1, T>,
    S2: ConstSource<SR, CH2, T>,
    S3: ConstSource<SR, CH3, T>,
    S4: ConstSource<SR, CH4, T>,
    S5: ConstSource<SR, CH5, T>,
    S6: ConstSource<SR, CH6, T>,
> ConstSource<SR, CH, T> for CombinedChannels6Tuple<SR, CH, CH1, CH2, CH3, CH4, CH5, CH6, S1, S2, S3, S4, S5, S6> {
    closed spec fn wf(&self) -> bool {
        &&& self.sources.0.wf()
        &&& self.sources.1.wf()
        &&& self.sources.2.wf()
        &&& self.sources.3.wf()
        &&& self.sources.4.wf()
        &&& self.sources.5.wf()
        &&& CH > 0
        &&& CH1 + CH2 + CH3 + CH4 + CH5 + CH6 == CH
        &&& self.current < CH
    }

    closed spec fn remaining(&self) -> Seq<T> {
        combined_output(seq![self.sources.0.remaining(), self.sources.1.remaining(), self.sources.2.remaining(), self.sources.3.remaining(), self.sources.4.remaining(), self.sources.5.remaining()], seq![CH1 as nat, CH2 as nat, CH3 as nat, CH4 as nat, CH5 as nat, CH6 as nat], self.current as int, CH as int)
    }

    closed spec fn duration(&self) -> Option<nat> {
        max_known(seq![self.sources.0.duration(), self.sources.1.duration(), self.sources.2.duration(), self.sources.3.duration(), self.sources.4.duration(), self.sources.5.duration()])
    }

    fn next(&mut self) -> (r: Option<T>) {
        let ghost before = seq![self.sources.0.remaining(), self.sources.1.remaining(), self.sources.2.remaining(), self.sources.3.remaining(), self.sources.4.remaining(), self.sources.5.remaining()];
        let ghost chans = seq![CH1 as nat, CH2 as nat, CH3 as nat, CH4 as nat, CH5 as nat, CH6 as nat];
        let ghost cur = self.current as int;
        let mut channel: u16 = 0;
        assert(channel + CH1 <= CH);
        if channel <= self.current && self.current < channel + CH1 {
            assert(channel_owner(chans, 0, 0, cur) == 0);
            self.current = (self.current + 1) % CH;
            let r = self.sources.0.next();
            proof {
                assert(seq![self.sources.0.remaining(), self.sources.1.remaining(), self.sources.2.remaining(), self.sources.3.remaining(), self.sources.4.remaining(), self.sources.5.remaining()] =~= before.update(0, seq![self.sources.0.remaining(), self.sources.1.remaining(), self.sources.2.remaining(), self.sources.3.remaining(), self.sources.4.remaining(), self.sources.5.remaining()][0]));
                lemma_combined_step(before, seq![self.sources.0.remaining(), self.sources.1.remaining(), self.sources.2.remaining(), self.sources.3.remaining(), self.sources.4.remaining(), self.sources.5.remaining()], chans, cur, CH as int, r);
            }
            return r;
        }
        channel = channel + CH1;
        assert(channel_owner(chans, 0, 0, cur) == channel_owner(chans, 1, channel as int, cur));
        assert(channel + CH2 <= CH);
        if channel <= self.current && self.current < channel + CH2 {
            assert(channel_owner(chans, 0, 0, cur) == 1);
            self.current = (self.current + 1) % CH;
            let r = self.sources.1.next();
            proof {
                assert(seq![self.sources.0.remaining(), self.sources.1.remaining(), self.sources.2.remaining(), self.sources.3.remaining(), self.sources.4.remaining(), self.sources.5.remaining()] =~= before.update(1, seq![self.sources.0.remaining(), self.sources.1.remaining(), self.sources.2.remaining(), self.sources.3.remaining(), self.sources.4.remaining(), self.sources.5.remaining()][1]));
                lemma_combined_step(before, seq![self.sources.0.remaining(), self.sources.1.remaining(), self.sources.2.remaining(), self.sources.3.remaining(), self.sources.4.remaining(), self.sources.5.remaining()], chans, cur, CH as int, r);
            }
            return r;
        }
        channel = channel + CH2;
        assert(channel_owner(chans, 0, 0, cur) == channel_owner(chans, 2, channel as int, cur));
        assert(channel + CH3 <= CH);
        if channel <= self.current && self.current < channel + CH3 {
            assert(channel_owner(chans, 0, 0, cur) == 2);
            self.current = (self.current + 1) % CH;
            let r = self.sources.2.next();
            proof {
                assert(seq![self.sources.0.remaining(), self.sources.1.remaining(), self.sources.2.remaining(), self.sources.3.remaining(), self.sources.4.remaining(), self.sources.5.remaining()] =~= before.update(2, seq![self.sources.0.remaining(), self.sources.1.remaining(), self.sources.2.remaining(), self.sources.3.remaining(), self.sources.4.remaining(), self.sources.5.remaining()][2]));
                lemma_combined_step(before, seq![self.sources.0.remaining(), self.sources.1.remaining(), self.sources.2.remaining(), self.sources.3.remaining(), self.sources.4.remaining(), self.sources.5.remaining()], chans, cur, CH as int, r);
            }
            return r;
        }
        channel = channel + CH3;
        assert(channel_owner(chans, 0, 0, cur) == channel_owner(chans, 3, channel as int, cur));
        assert(channel + CH4 <= CH);
        if channel <= self.current && self.current < channel + CH4 {
            assert(channel_owner(chans, 0, 0, cur) == 3);
            self.current = (self.current + 1) % CH;
            let r = self.sources.3.next();
            proof {
                assert(seq![self.sources.0.remaining(), self.sources.1.remaining(), self.sources.2.remaining(), self.sources.3.remaining(), self.sources.4.remaining(), self.sources.5.remaining()] =~= before.update(3, seq![self.sources.0.remaining(), self.sources.1.remaining(), self.sources.2.remaining(), self.sources.3.remaining(), self.sources.4.remaining(), self.sources.5.remaining()][3]));
                lemma_combined_step(before, seq![self.sources.0.remaining(), self.sources.1.remaining(), self.sources.2.remaining(), self.sources.3.remaining(), self.sources.4.remaining(), self.sources.5.remaining()], chans, cur, CH as int, r);
            }
            return r;
        }
        channel = channel + CH4;
        assert(channel_owner(chans, 0, 0, cur) == channel_owner(chans, 4, channel as int, cur));
        assert(channel + CH5 <= CH);
        if channel <= self.current && self.current < channel + CH5 {
            assert(channel_owner(chans, 0, 0, cur) == 4);
            self.current = (self.current + 1) % CH;
            let r = self.sources.4.next();
            proof {
                assert(seq![self.sources.0.remaining(), self.sources.1.remaining(), self.sources.2.remaining(), self.sources.3.remaining(), self.sources.4.remaining(), self.sources.5.remaining()] =~= before.update(4, seq![self.sources.0.remaining(), self.sources.1.remaining(), self.sources.2.remaining(), self.sources.3.remaining(), self.sources.4.remaining(), self.sources.5.remaining()][4]));
                lemma_combined_step(before, seq![self.sources.0.remaining(), self.sources.1.remaining(), self.sources.2.remaining(), self.sources.3.remaining(), self.sources.4.remaining(), self.sources.5.remaining()], chans, cur, CH as int, r);
            }
            return r;
        }
        channel = channel + CH5;
        assert(channel_owner(chans, 0, 0, cur) == channel_owner(chans, 5, channel as int, cur));
        assert(channel + CH6 <= CH);
        if channel <= self.current && self.current < channel + CH6 {
            assert(channel_owner(chans, 0, 0, cur) == 5);
            self.current = (self.current + 1) % CH;
            let r = self.sources.5.next();
            proof {
                assert(seq![self.sources.0.remaining(), self.sources.1.remaining(), self.sources.2.remaining(), self.sources.3.remaining(), self.sources.4.remaining(), self.sources.5.remaining()] =~= before.update(5, seq![self.sources.0.remaining(), self.sources.1.remaining(), self.sources.2.remaining(), self.sources.3.remaining(), self.sources.4.remaining(), self.sources.5.remaining()][5]));
                lemma_combined_step(before, seq![self.sources.0.remaining(), self.sources.1.remaining(), self.sources.2.remaining(), self.sources.3.remaining(), self.sources.4.remaining(), self.sources.5.remaining()], chans, cur, CH as int, r);
            }
            return r;
        }
        None
    }

    fn total_duration_nanos(&self) -> (r: Option<u128>) {
        let ghost ds = seq![self.sources.0.duration(), self.sources.1.duration(), self.sources.2.duration(), self.sources.3.duration(), self.sources.4.duration(), self.sources.5.duration()];
        let mut acc: Option<u128> = None;
        assert(ds.take(0) =~= Seq::<Option<nat>>::empty());
        let d = self.sources.0.total_duration_nanos();
        acc = max_known_step(acc, d, Ghost(ds.take(0)));
        assert(ds.take(0).push(ds[0]) =~= ds.take(1));
        let d = self.sources.1.total_duration_nanos();
        acc = max_known_step(acc, d, Ghost(ds.take(1)));
        assert(ds.take(1).push(ds[1]) =~= ds.take(2));
        let d = self.sources.2.total_duration_nanos();
        acc = max_known_step(acc, d, Ghost(ds.take(2)));
        assert(ds.take(2).push(ds[2]) =~= ds.take(3));
        let d = self.sources.3.total_duration_nanos();
        acc = max_known_step(acc, d, Ghost(ds.take(3)));
        assert(ds.take(3).push(ds[3]) =~= ds.take(4));
        let d = self.sources.4.total_duration_nanos();
        acc = max_known_step(acc, d, Ghost(ds.take(4)));
        assert(ds.take(4).push(ds[4]) =~= ds.take(5));
        let d = self.sources.5.total_duration_nanos();
        acc = max_known_step(acc, d, Ghost(ds.take(5)));
        assert(ds.take(5).push(ds[5]) =~= ds.take(6));
        assert(ds.take(6) =~= ds);
        acc
    }
}

/// Combines the channels of a tuple of 6 sources into one source; the
/// output channel count must be the sum of the inputs' channel counts.
pub trait CH6T<const SR: u32, const CH1: u16, const CH2: u16, const CH3: u16, const CH4: u16, const CH5: u16, const CH6: u16, T, S1, S2, S3, S4, S5, S6> {
    fn combine_channels<const CH: u16>(self) -> (r: CombinedChannels6Tuple<SR, CH, CH1, CH2, CH3, CH4, CH5, CH6, S1, S2, S3, S4, S5, S6>)
        requires
            CH > 0,
            CH1 + CH2 + CH3 + CH4 + CH5 + CH6 == CH,
    ;
}

impl<
    const SR: u32,
    const CH1: u16, const CH2: u16, const CH3: u16, const CH4: u16, const CH5: u16, const CH6: u16,
    T,
    S1: ConstSource<SR, CH1, T>,
    S2: ConstSource<SR, CH2, T>,
    S3: ConstSource<SR, CH3, T>,
    S4: ConstSource<SR, CH4, T>,
    S5: ConstSource<SR, CH5, T>,
    S6: ConstSource<SR, CH6, T>,
> CH6T<SR, CH1, CH2, CH3, CH4, CH5, CH6, T, S1, S2, S3, S4, S5, S6> for (S1, S2, S3, S4, S5, S6) {
    fn combine_channels<const CH: u16>(self) -> (r: CombinedChannels6Tuple<SR, CH, CH1, CH2, CH3, CH4, CH5, CH6, S1, S2, S3, S4, S5, S6>)
        ensures
            self.0.wf() && self.1.wf() && self.2.wf() && self.3.wf() && self.4.wf() && self.5.wf() ==> r.wf(),
            r.remaining() == combined_output(seq![self.0.remaining(), self.1.remaining(), self.2.remaining(), self.3.remaining(), self.4.remaining(), self.5.remaining()], seq![CH1 as nat, CH2 as nat, CH3 as nat, CH4 as nat, CH5 as nat, CH6 as nat], 0, CH as int),
            r.duration() == max_known(seq![self.0.duration(), self.1.duration(), self.2.duration(), self.3.duration(), self.4.duration(), self.5.duration()]),
    {
        CombinedChannels6Tuple { sources: self, current: 0 }
    }
}

/// Interleaves the channels of a tuple of 7 sources, with `CH1`, `CH2`, ...
/// channels each, into one source with `CH` channels.
pub struct CombinedChannels7Tuple<const SR: u32, const CH: u16, const CH1: u16, const CH2: u16, const CH3: u16, const CH4: u16, const CH5: u16, const CH6: u16, const CH7: u16, S1, S2, S3, S4, S5, S6, S7> {
    sources: (S1, S2, S3, S4, S5, S6, S7),
    current: u16,
}

impl<
    const SR: u32,
    const CH: u16,
    const CH1: u16, const CH2: u16, const CH3: u16, const CH4: u16, const CH5: u16, const CH6: u16, const CH7: u16,
    T,
    S1: ConstSource<SR, CH1, T>,
    S2: ConstSource<SR, CH2, T>,
    S3: ConstSource<SR, CH3, T>,
    S4: ConstSource<SR, CH4, T>,
    S5: ConstSource<SR, CH5, T>,
    S6: ConstSource<SR, CH6, T>,
    S7: ConstSource<SR, CH7, T>,
> ConstSource<SR, CH, T> for CombinedChannels7Tuple<SR, CH, CH1, CH2, CH3, CH4, CH5, CH6, CH7, S1, S2, S3, S4, S5, S6, S7> {
    closed spec fn wf(&self) -> bool {
        &&& self.sources.0.wf()
        &&& self.sources.1.wf()
        &&& self.sources.2.wf()
        &&& self.sources.3.wf()
        &&& self.sources.4.wf()
        &&& self.sources.5.wf()
        &&& self.sources.6.wf()
        &&& CH > 0
        &&& CH1 + CH2 + CH3 + CH4 + CH5 + CH6 + CH7 == CH
        &&& self.current < CH
    }

    closed spec fn remaining(&self) -> Seq<T> {
        combined_output(seq![self.sources.0.remaining(), self.sources.1.remaining(), self.sources.2.remaining(), self.sources.3.remaining(), self.sources.4.remaining(), self.sources.5.remaining(), self.sources.6.remaining()], seq![CH1 as nat, CH2 as nat, CH3 as nat, CH4 as nat, CH5 as nat, CH6 as nat, CH7 as nat], self.current as int, CH as int)
    }

    closed spec fn duration(&self) -> Option<nat> {
        max_known(seq![self.sources.0.duration(), self.sources.1.duration(), self.sources.2.duration(), self.sources.3.duration(), self.sources.4.duration(), self.sources.5.duration(), self.sources.6.duration()])
    }

    fn next(&mut self) -> (r: Option<T>) {
        let ghost before = seq![self.sources.0.remaining(), self.sources.1.remaining(), self.sources.2.remaining(), self.sources.3.remaining(), self.sources.4.remaining(), self.sources.5.remaining(), self.sources.6.remaining()];
        let ghost chans = seq![CH1 as nat, CH2 as nat, CH3 as nat, CH4 as nat, CH5 as nat, CH6 as nat, CH7 as nat];
        let ghost cur = self.current as int;
        let mut channel: u16 = 0;
        assert(channel + CH1 <= CH);
        if channel <= self.current && self.current < channel + CH1 {
            assert(channel_owner(chans, 0, 0, cur) == 0);
            self.current = (self.current + 1) % CH;
            let r = self.sources.0.next();
            proof {
                assert(seq![self.sources.0.remaining(), self.sources.1.remaining(), self.sources.2.remaining(), self.sources.3.remaining(), self.sources.4.remaining(), self.sources.5.remaining(), self.sources.6.remaining()] =~= before.update(0, seq![self.sources.0.remaining(), self.sources.1.remaining(), self.sources.2.remaining(), self.sources.3.remaining(), self.sources.4.remaining(), self.sources.5.remaining(), self.sources.6.remaining()][0]));
                lemma_combined_step(before, seq![self.sources.0.remaining(), self.sources.1.remaining(), self.sources.2.remaining(), self.sources.3.remaining(), self.sources.4.remaining(), self.sources.5.remaining(), self.sources.6.remaining()], chans, cur, CH as int, r);
            }
            return r;
        }
        channel = channel + CH1;
        assert(channel_owner(chans, 0, 0, cur) == channel_owner(chans, 1, channel as int, cur));
        assert(channel + CH2 <= CH);
        if channel <= self.current && self.current < channel + CH2 {
            assert(channel_owner(chans, 0, 0, cur) == 1);
            self.current = (self.current + 1) % CH;
            let r = self.sources.1.next();
            proof {
                assert(seq![self.sources.0.remaining(), self.sources.1.remaining(), self.sources.2.remaining(), self.sources.3.remaining(), self.sources.4.remaining(), self.sources.5.remaining(), self.sources.6.remaining()] =~= before.update(1, seq![self.sources.0.remaining(), self.sources.1.remaining(), self.sources.2.remaining(), self.sources.3.remaining(), self.sources.4.remaining(), self.sources.5.remaining(), self.sources.6.remaining()][1]));
                lemma_combined_step(before, seq![self.sources.0.remaining(), self.sources.1.remaining(), self.sources.2.remaining(), self.sources.3.remaining(), self.sources.4.remaining(), self.sources.5.remaining(), self.sources.6.remaining()], chans, cur, CH as int, r);
            }
            return r;
        }
        channel = channel + CH2;
        assert(channel_owner(chans, 0, 0, cur) == channel_owner(chans, 2, channel as int, cur));
        assert(channel + CH3 <= CH);
        if channel <= self.current && self.current < channel + CH3 {
            assert(channel_owner(chans, 0, 0, cur) == 2);
            self.current = (self.current + 1) % CH;
            let r = self.sources.2.next();
            proof {
                assert(seq![self.sources.0.remaining(), self.sources.1.remaining(), self.sources.2.remaining(), self.sources.3.remaining(), self.sources.4.remaining(), self.sources.5.remaining(), self.sources.6.remaining()] =~= before.update(2, seq![self.sources.0.remaining(), self.sources.1.remaining(), self.sources.2.remaining(), self.sources.3.remaining(), self.sources.4.remaining(), self.sources.5.remaining(), self.sources.6.remaining()][2]));
                lemma_combined_step(before, seq![self.sources.0.remaining(), self.sources.1.remaining(), self.sources.2.remaining(), self.sources.3.remaining(), self.sources.4.remaining(), self.sources.5.remaining(), self.sources.6.remaining()], chans, cur, CH as int, r);
            }
            return r;
        }
        channel = channel + CH3;
        assert(channel_owner(chans, 0, 0, cur) == channel_owner(chans, 3, channel as int, cur));
        assert(channel + CH4 <= CH);
        if channel <= self.current && self.current < channel + CH4 {
            assert(channel_owner(chans, 0, 0, cur) == 3);
            self.current = (self.current + 1) % CH;
            let r = self.sources.3.next();
            proof {
                assert(seq![self.sources.0.remaining(), self.sources.1.remaining(), self.sources.2.remaining(), self.sources.3.remaining(), self.sources.4.remaining(), self.sources.5.remaining(), self.sources.6.remaining()] =~= before.update(3, seq![self.sources.0.remaining(), self.sources.1.remaining(), self.sources.2.remaining(), self.sources.3.remaining(), self.sources.4.remaining(), self.sources.5.remaining(), self.sources.6.remaining()][3]));
                lemma_combined_step(before, seq![self.sources.0.remaining(), self.sources.1.remaining(), self.sources.2.remaining(), self.sources.3.remaining(), self.sources.4.remaining(), self.sources.5.remaining(), self.sources.6.remaining()], chans, cur, CH as int, r);
            }
            return r;
        }
        channel = channel + CH4;
        assert(channel_owner(chans, 0, 0, cur) == channel_owner(chans, 4, channel as int, cur));
        assert(channel + CH5 <= CH);
        if channel <= self.current && self.current < channel + CH5 {
            assert(channel_owner(chans, 0, 0, cur) == 4);
            self.current = (self.current + 1) % CH;
            let r = self.sources.4.next();
            proof {
                assert(seq![self.sources.0.remaining(), self.sources.1.remaining(), self.sources.2.remaining(), self.sources.3.remaining(), self.sources.4.remaining(), self.sources.5.remaining(), self.sources.6.remaining()] =~= before.update(4, seq![self.sources.0.remaining(), self.sources.1.remaining(), self.sources.2.remaining(), self.sources.3.remaining(), self.sources.4.remaining(), self.sources.5.remaining(), self.sources.6.remaining()][4]));
                lemma_combined_step(before, seq![self.sources.0.remaining(), self.sources.1.remaining(), self.sources.2.remaining(), self.sources.3.remaining(), self.sources.4.remaining(), self.sources.5.remaining(), self.sources.6.remaining()], chans, cur, CH as int, r);
            }
            return r;
        }
        channel = channel + CH5;
        assert(channel_owner(chans, 0, 0, cur) == channel_owner(chans, 5, channel as int, cur));
        assert(channel + CH6 <= CH);
        if channel <= self.current && self.current < channel + CH6 {
            assert(channel_owner(chans, 0, 0, cur) == 5);
            self.current = (self.current + 1) % CH;
            let r = self.sources.5.next();
            proof {
                assert(seq![self.sources.0.remaining(), self.sources.1.remaining(), self.sources.2.remaining(), self.sources.3.remaining(), self.sources.4.remaining(), self.sources.5.remaining(), self.sources.6.remaining()] =~= before.update(5, seq![self.sources.0.remaining(), self.sources.1.remaining(), self.sources.2.remaining(), self.sources.3.remaining(), self.sources.4.remaining(), self.sources.5.remaining(), self.sources.6.remaining()][5]));
                lemma_combined_step(before, seq![self.sources.0.remaining(), self.sources.1.remaining(), self.sources.2.remaining(), self.sources.3.remaining(), self.sources.4.remaining(), self.sources.5.remaining(), self.sources.6.remaining()], chans, cur, CH as int, r);
            }
            return r;
        }
        channel = channel + CH6;
        assert(channel_owner(chans, 0, 0, cur) == channel_owner(chans, 6, channel as int, cur));
        assert(channel + CH7 <= CH);
        if channel <= self.current && self.current < channel + CH7 {
            assert(channel_owner(chans, 0, 0, cur) == 6);
            self.current = (self.current + 1) % CH;
            let r = self.sources.6.next();
            proof {
                assert(seq![self.sources.0.remaining(), self.sources.1.remaining(), self.sources.2.remaining(), self.sources.3.remaining(), self.sources.4.remaining(), self.sources.5.remaining(), self.sources.6.remaining()] =~= before.update(6, seq![self.sources.0.remaining(), self.sources.1.remaining(), self.sources.2.remaining(), self.sources.3.remaining(), self.sources.4.remaining(), self.sources.5.remaining(), self.sources.6.remaining()][6]));
                lemma_combined_step(before, seq![self.sources.0.remaining(), self.sources.1.remaining(), self.sources.2.remaining(), self.sources.3.remaining(), self.sources.4.remaining(), self.sources.5.remaining(), self.sources.6.remaining()], chans, cur, CH as int, r);
            }
            return r;
        }
        None
    }

    fn total_duration_nanos(&self) -> (r: Option<u128>) {
        let ghost ds = seq![self.sources.0.duration(), self.sources.1.duration(), self.sources.2.duration(), self.sources.3.duration(), self.sources.4.duration(), self.sources.5.duration(), self.sources.6.duration()];
        let mut acc: Option<u128> = None;
        assert(ds.take(0) =~= Seq::<Option<nat>>::empty());
        let d = self.sources.0.total_duration_nanos();
        acc = max_known_step(acc, d, Ghost(ds.take(0)));
        assert(ds.take(0).push(ds[0]) =~= ds.take(1));
        let d = self.sources.1.total_duration_nanos();
        acc = max_known_step(acc, d, Ghost(ds.take(1)));
        assert(ds.take(1).push(ds[1]) =~= ds.take(2));
        let d = self.sources.2.total_duration_nanos();
        acc = max_known_step(acc, d, Ghost(ds.take(2)));
        assert(ds.take(2).push(ds[2]) =~= ds.take(3));
        let d = self.sources.3.total_duration_nanos();
        acc = max_known_step(acc, d, Ghost(ds.take(3)));
        assert(ds.take(3).push(ds[3]) =~= ds.take(4));
        let d = self.sources.4.total_duration_nanos();
        acc = max_known_step(acc, d, Ghost(ds.take(4)));
        assert(ds.take(4).push(ds[4]) =~= ds.take(5));
        let d = self.sources.5.total_duration_nanos();
        acc = max_known_step(acc, d, Ghost(ds.take(5)));
        assert(ds.take(5).push(ds[5]) =~= ds.take(6));
        let d = self.sources.6.total_duration_nanos();
        acc = max_known_step(acc, d, Ghost(ds.take(6)));
        assert(ds.take(6).push(ds[6]) =~= ds.take(7));
        assert(ds.take(7) =~= ds);
        acc
    }
}

/// Combines the channels of a tuple of 7 sources into one source; the
/// output channel count must be the sum of the inputs' channel counts.
pub trait CH7T<const SR: u32, const CH1: u16, const CH2: u16, const CH3: u16, const CH4: u16, const CH5: u16, const CH6: u16, const CH7: u16, T, S1, S2, S3, S4, S5, S6, S7> {
    fn combine_channels<const CH: u16>(self) -> (r: CombinedChannels7Tuple<SR, CH, CH1, CH2, CH3, CH4, CH5, CH6, CH7, S1, S2, S3, S4, S5, S6, S7>)
        requires
            CH > 0,
            CH1 + CH2 + CH3 + CH4 + CH5 + CH6 + CH7 == CH,
    ;
}

impl<
    const SR: u32,
    const CH1: u16, const CH2: u16, const CH3: u16, const CH4: u16, const CH5: u16, const CH6: u16, const CH7: u16,
    T,
    S1: ConstSource<SR, CH1, T>,
    S2: ConstSource<SR, CH2, T>,
    S3: ConstSource<SR, CH3, T>,
    S4: ConstSource<SR, CH4, T>,
    S5: ConstSource<SR, CH5, T>,
    S6: ConstSource<SR, CH6, T>,
    S7: ConstSource<SR, CH7, T>,
> CH7T<SR, CH1, CH2, CH3, CH4, CH5, CH6, CH7, T, S1, S2, S3, S4, S5, S6, S7> for (S1, S2, S3, S4, S5, S6, S7) {
    fn combine_channels<const CH: u16>(self) -> (r: CombinedChannels7Tuple<SR, CH, CH1, CH2, CH3, CH4, CH5, CH6, CH7, S1, S2, S3, S4, S5, S6, S7>)
        ensures
            self.0.wf() && self.1.wf() && self.2.wf() && self.3.wf() && self.4.wf() && self.5.wf() && self.6.wf() ==> r.wf(),
            r.remaining() == combined_output(seq![self.0.remaining(), self.1.remaining(), self.2.remaining(), self.3.remaining(), self.4.remaining(), self.5.remaining(), self.6.remaining()], seq![CH1 as nat, CH2 as nat, CH3 as nat, CH4 as nat, CH5 as nat, CH6 as nat, CH7 as nat], 0, CH as int),
            r.duration() == max_known(seq![self.0.duration(), self.1.duration(), self.2.duration(), self.3.duration(), self.4.duration(), self.5.duration(), self.6.duration()]),
    {
        CombinedChannels7Tuple { sources: self, current: 0 }
    }
}

/// Interleaves the channels of a tuple of 8 sources, with `CH1`, `CH2`, ...
/// channels each, into one source with `CH` channels.
pub struct CombinedChannels8Tuple<const SR: u32, const CH: u16, const CH1: u16, const CH2: u16, const CH3: u16, const CH4: u16, const CH5: u16, const CH6: u16, const CH7: u16, const CH8: u16, S1, S2, S3, S4, S5, S6, S7, S8> {
    sources: (S1, S2, S3, S4, S5, S6, S7, S8),
    current: u16,
}

impl<
    const SR: u32,
    const CH: u16,
    const CH1: u16, const CH2: u16, const CH3: u16, const CH4: u16, const CH5: u16, const CH6: u16, const CH7: u16, const CH8: u16,
    T,
    S1: ConstSource<SR, CH1, T>,
    S2: ConstSource<SR, CH2, T>,
    S3: ConstSource<SR, CH3, T>,
    S4: ConstSource<SR, CH4, T>,
    S5: ConstSource<SR, CH5, T>,
    S6: ConstSource<SR, CH6, T>,
    S7: ConstSource<SR, CH7, T>,
    S8: ConstSource<SR, CH8, T>,
> ConstSource<SR, CH, T> for CombinedChannels8Tuple<SR, CH, CH1, CH2, CH3, CH4, CH5, CH6, CH7, CH8, S1, S2, S3, S4, S5, S6, S7, S8> {
    closed spec fn wf(&self) -> bool {
        &&& self.sources.0.wf()
        &&& self.sources.1.wf()
        &&& self.sources.2.wf()
        &&& self.sources.3.wf()
        &&& self.sources.4.wf()
        &&& self.sources.5.wf()
        &&& self.sources.6.wf()
        &&& self.sources.7.wf()
        &&& CH > 0
        &&& CH1 + CH2 + CH3 + CH4 + CH5 + CH6 + CH7 + CH8 == CH
        &&& self.current < CH
    }

    closed spec fn remaining(&self) -> Seq<T> {
        combined_output(seq![self.sources.0.remaining(), self.sources.1.remaining(), self.sources.2.remaining(), self.sources.3.remaining(), self.sources.4.remaining(), self.sources.5.remaining(), self.sources.6.remaining(), self.sources.7.remaining()], seq![CH1 as nat, CH2 as nat, CH3 as nat, CH4 as nat, CH5 as nat, CH6 as nat, CH7 as nat, CH8 as nat], self.current as int, CH as int)
    }

    closed spec fn duration(&self) -> Option<nat> {
        max_known(seq![self.sources.0.duration(), self.sources.1.duration(), self.sources.2.duration(), self.sources.3.duration(), self.sources.4.duration(), self.sources.5.duration(), self.sources.6.duration(), self.sources.7.duration()])
    }

    fn next(&mut self) -> (r: Option<T>) {
        let ghost before = seq![self.sources.0.remaining(), self.sources.1.remaining(), self.sources.2.remaining(), self.sources.3.remaining(), self.sources.4.remaining(), self.sources.5.remaining(), self.sources.6.remaining(), self.sources.7.remaining()];
        let ghost chans = seq![CH1 as nat, CH2 as nat, CH3 as nat, CH4 as nat, CH5 as nat, CH6 as nat, CH7 as nat, CH8 as nat];
        let ghost cur = self.current as int;
        let mut channel: u16 = 0;
        assert(channel + CH1 <= CH);
        if channel <= self.current && self.current < channel + CH1 {
            assert(channel_owner(chans, 0, 0, cur) == 0);
            self.current = (self.current + 1) % CH;
            let r = self.sources.0.next();
            proof {
                assert(seq![self.sources.0.remaining(), self.sources.1.remaining(), self.sources.2.remaining(), self.sources.3.remaining(), self.sources.4.remaining(), self.sources.5.remaining(), self.sources.6.remaining(), self.sources.7.remaining()] =~= before.update(0, seq![self.sources.0.remaining(), self.sources.1.remaining(), self.sources.2.remaining(), self.sources.3.remaining(), self.sources.4.remaining(), self.sources.5.remaining(), self.sources.6.remaining(), self.sources.7.remaining()][0]));
                lemma_combined_step(before, seq![self.sources.0.remaining(), self.sources.1.remaining(), self.sources.2.remaining(), self.sources.3.remaining(), self.sources.4.remaining(), self.sources.5.remaining(), self.sources.6.remaining(), self.sources.7.remaining()], chans, cur, CH as int, r);
            }
            return r;
        }
        channel = channel + CH1;
        assert(channel_owner(chans, 0, 0, cur) == channel_owner(chans, 1, channel as int, cur));
        assert(channel + CH2 <= CH);
        if channel <= self.current && self.current < channel + CH2 {
            assert(channel_owner(chans, 0, 0, cur) == 1);
            self.current = (self.current + 1) % CH;
            let r = self.sources.1.next();
            proof {
                assert(seq![self.sources.0.remaining(), self.sources.1.remaining(), self.sources.2.remaining(), self.sources.3.remaining(), self.sources.4.remaining(), self.sources.5.remaining(), self.sources.6.remaining(), self.sources.7.remaining()] =~= before.update(1, seq![self.sources.0.remaining(), self.sources.1.remaining(), self.sources.2.remaining(), self.sources.3.remaining(), self.sources.4.remaining(), self.sources.5.remaining(), self.sources.6.remaining(), self.sources.7.remaining()][1]));
                lemma_combined_step(before, seq![self.sources.0.remaining(), self.sources.1.remaining(), self.sources.2.remaining(), self.sources.3.remaining(), self.sources.4.remaining(), self.sources.5.remaining(), self.sources.6.remaining(), self.sources.7.remaining()], chans, cur, CH as int, r);
            }
            return r;
        }
        channel = channel + CH2;
        assert(channel_owner(chans, 0, 0, cur) == channel_owner(chans, 2, channel as int, cur));
        assert(channel + CH3 <= CH);
        if channel <= self.current && self.current < channel + CH3 {
            assert(channel_owner(chans, 0, 0, cur) == 2);
            self.current = (self.current + 1) % CH;
            let r = self.sources.2.next();
            proof {
                assert(seq![self.sources.0.remaining(), self.sources.1.remaining(), self.sources.2.remaining(), self.sources.3.remaining(), self.sources.4.remaining(), self.sources.5.remaining(), self.sources.6.remaining(), self.sources.7.remaining()] =~= before.update(2, seq![self.sources.0.remaining(), self.sources.1.remaining(), self.sources.2.remaining(), self.sources.3.remaining(), self.sources.4.remaining(), self.sources.5.remaining(), self.sources.6.remaining(), self.sources.7.remaining()][2]));
                lemma_combined_step(before, seq![self.sources.0.remaining(), self.sources.1.remaining(), self.sources.2.remaining(), self.sources.3.remaining(), self.sources.4.remaining(), self.sources.5.remaining(), self.sources.6.remaining(), self.sources.7.remaining()], chans, cur, CH as int, r);
            }
            return r;
        }
        channel = channel + CH3;
        assert(channel_owner(chans, 0, 0, cur) == channel_owner(chans, 3, channel as int, cur));
        assert(channel + CH4 <= CH);
        if channel <= self.current && self.current < channel + CH4 {
            assert(channel_owner(chans, 0, 0, cur) == 3);
            self.current = (self.current + 1) % CH;
            let r = self.sources.3.next();
            proof {
                assert(seq![self.sources.0.remaining(), self.sources.1.remaining(), self.sources.2.remaining(), self.sources.3.remaining(), self.sources.4.remaining(), self.sources.5.remaining(), self.sources.6.remaining(), self.sources.7.remaining()] =~= before.update(3, seq![self.sources.0.remaining(), self.sources.1.remaining(), self.sources.2.remaining(), self.sources.3.remaining(), self.sources.4.remaining(), self.sources.5.remaining(), self.sources.6.remaining(), self.sources.7.remaining()][3]));
                lemma_combined_step(before, seq![self.sources.0.remaining(), self.sources.1.remaining(), self.sources.2.remaining(), self.sources.3.remaining(), self.sources.4.remaining(), self.sources.5.remaining(), self.sources.6.remaining(), self.sources.7.remaining()], chans, cur, CH as int, r);
            }
            return r;
        }
        channel = channel + CH4;
        assert(channel_owner(chans, 0, 0, cur) == channel_owner(chans, 4, channel as int, cur));
        assert(channel + CH5 <= CH);
        if channel <= self.current && self.current < channel + CH5 {
            assert(channel_owner(chans, 0, 0, cur) == 4);
            self.current = (self.current + 1) % CH;
            let r = self.sources.4.next();
            proof {
                assert(seq![self.sources.0.remaining(), self.sources.1.remaining(), self.sources.2.remaining(), self.sources.3.remaining(), self.sources.4.remaining(), self.sources.5.remaining(), self.sources.6.remaining(), self.sources.7.remaining()] =~= before.update(4, seq![self.sources.0.remaining(), self.sources.1.remaining(), self.sources.2.remaining(), self.sources.3.remaining(), self.sources.4.remaining(), self.sources.5.remaining(), self.sources.6.remaining(), self.sources.7.remaining()][4]));
                lemma_combined_step(before, seq![self.sources.0.remaining(), self.sources.1.remaining(), self.sources.2.remaining(), self.sources.3.remaining(), self.sources.4.remaining(), self.sources.5.remaining(), self.sources.6.remaining(), self.sources.7.remaining()], chans, cur, CH as int, r);
            }
            return r;
        }
        channel = channel + CH5;
        assert(channel_owner(chans, 0, 0, cur) == channel_owner(chans, 5, channel as int, cur));
        assert(channel + CH6 <= CH);
        if channel <= self.current && self.current < channel + CH6 {
            assert(channel_owner(chans, 0, 0, cur) == 5);
            self.current = (self.current + 1) % CH;
            let r = self.sources.5.next();
            proof {
                assert(seq![self.sources.0.remaining(), self.sources.1.remaining(), self.sources.2.remaining(), self.sources.3.remaining(), self.sources.4.remaining(), self.sources.5.remaining(), self.sources.6.remaining(), self.sources.7.remaining()] =~= before.update(5, seq![self.sources.0.remaining(), self.sources.1.remaining(), self.sources.2.remaining(), self.sources.3.remaining(), self.sources.4.remaining(), self.sources.5.remaining(), self.sources.6.remaining(), self.sources.7.remaining()][5]));
                lemma_combined_step(before, seq![self.sources.0.remaining(), self.sources.1.remaining(), self.sources.2.remaining(), self.sources.3.remaining(), self.sources.4.remaining(), self.sources.5.remaining(), self.sources.6.remaining(), self.sources.7.remaining()], chans, cur, CH as int, r);
            }
            return r;
        }
        channel = channel + CH6;
        assert(channel_owner(chans, 0, 0, cur) == channel_owner(chans, 6, channel as int, cur));
        assert(channel + CH7 <= CH);
        if channel <= self.current && self.current < channel + CH7 {
            assert(channel_owner(chans, 0, 0, cur) == 6);
            self.current = (self.current + 1) % CH;
            let r = self.sources.6.next();
            proof {
                assert(seq![self.sources.0.remaining(), self.sources.1.remaining(), self.sources.2.remaining(), self.sources.3.remaining(), self.sources.4.remaining(), self.sources.5.remaining(), self.sources.6.remaining(), self.sources.7.remaining()] =~= before.update(6, seq![self.sources.0.remaining(), self.sources.1.remaining(), self.sources.2.remaining(), self.sources.3.remaining(), self.sources.4.remaining(), self.sources.5.remaining(), self.sources.6.remaining(), self.sources.7.remaining()][6]));
                lemma_combined_step(before, seq![self.sources.0.remaining(), self.sources.1.remaining(), self.sources.2.remaining(), self.sources.3.remaining(), self.sources.4.remaining(), self.sources.5.remaining(), self.sources.6.remaining(), self.sources.7.remaining()], chans, cur, CH as int, r);
            }
            return r;
        }
        channel = channel + CH7;
        assert(channel_owner(chans, 0, 0, cur) == channel_owner(chans, 7, channel as int, cur));
        assert(channel + CH8 <= CH);
        if channel <= self.current && self.current < channel + CH8 {
            assert(channel_owner(chans, 0, 0, cur) == 7);
            self.current = (self.current + 1) % CH;
            let r = self.sources.7.next();
            proof {
                assert(seq![self.sources.0.remaining(), self.sources.1.remaining(), self.sources.2.remaining(), self.sources.3.remaining(), self.sources.4.remaining(), self.sources.5.remaining(), self.sources.6.remaining(), self.sources.7.remaining()] =~= before.update(7, seq![self.sources.0.remaining(), self.sources.1.remaining(), self.sources.2.remaining(), self.sources.3.remaining(), self.sources.4.remaining(), self.sources.5.remaining(), self.sources.6.remaining(), self.sources.7.remaining()][7]));
                lemma_combined_step(before, seq![self.sources.0.remaining(), self.sources.1.remaining(), self.sources.2.remaining(), self.sources.3.remaining(), self.sources.4.remaining(), self.sources.5.remaining(), self.sources.6.remaining(), self.sources.7.remaining()], chans, cur, CH as int, r);
            }
            return r;
        }
        None
    }

    fn total_duration_nanos(&self) -> (r: Option<u128>) {
        let ghost ds = seq![self.sources.0.duration(), self.sources.1.duration(), self.sources.2.duration(), self.sources.3.duration(), self.sources.4.duration(), self.sources.5.duration(), self.sources.6.duration(), self.sources.7.duration()];
        let mut acc: Option<u128> = None;
        assert(ds.take(0) =~= Seq::<Option<nat>>::empty());
        let d = self.sources.0.total_duration_nanos();
        acc = max_known_step(acc, d, Ghost(ds.take(0)));
        assert(ds.take(0).push(ds[0]) =~= ds.take(1));
        let d = self.sources.1.total_duration_nanos();
        acc = max_known_step(acc, d, Ghost(ds.take(1)));
        assert(ds.take(1).push(ds[1]) =~= ds.take(2));
        let d = self.sources.2.total_duration_nanos();
        acc = max_known_step(acc, d, Ghost(ds.take(2)));
        assert(ds.take(2).push(ds[2]) =~= ds.take(3));
        let d = self.sources.3.total_duration_nanos();
        acc = max_known_step(acc, d, Ghost(ds.take(3)));
        assert(ds.take(3).push(ds[3]) =~= ds.take(4));
        let d = self.sources.4.total_duration_nanos();
        acc = max_known_step(acc, d, Ghost(ds.take(4)));
        assert(ds.take(4).push(ds[4]) =~= ds.take(5));
        let d = self.sources.5.total_duration_nanos();
        acc = max_known_step(acc, d, Ghost(ds.take(5)));
        assert(ds.take(5).push(ds[5]) =~= ds.take(6));
        let d = self.sources.6.total_duration_nanos();
        acc = max_known_step(acc, d, Ghost(ds.take(6)));
        assert(ds.take(6).push(ds[6]) =~= ds.take(7));
        let d = self.sources.7.total_duration_nanos();
        acc = max_known_step(acc, d, Ghost(ds.take(7)));
        assert(ds.take(7).push(ds[7]) =~= ds.take(8));
        assert(ds.take(8) =~= ds);
        acc
    }
}

/// Combines the channels of a tuple of 8 sources into one source; the
/// output channel count must be the sum of the inputs' channel counts.
pub trait CH8T<const SR: u32, const CH1: u16, const CH2: u16, const CH3: u16, const CH4: u16, const CH5: u16, const CH6: u16, const CH7: u16, const CH8: u16, T, S1, S2, S3, S4, S5, S6, S7, S8> {
    fn combine_channels<const CH: u16>(self) -> (r: CombinedChannels8Tuple<SR, CH, CH1, CH2, CH3, CH4, CH5, CH6, CH7, CH8, S1, S2, S3, S4, S5, S6, S7, S8>)
        requires
            CH > 0,
            CH1 + CH2 + CH3 + CH4 + CH5 + CH6 + CH7 + CH8 == CH,
    ;
}

impl<
    const SR: u32,
    const CH1: u16, const CH2: u16, const CH3: u16, const CH4: u16, const CH5: u16, const CH6: u16, const CH7: u16, const CH8: u16,
    T,
    S1: ConstSource<SR, CH1, T>,
    S2: ConstSource<SR, CH2, T>,
    S3: ConstSource<SR, CH3, T>,
    S4: ConstSource<SR, CH4, T>,
    S5: ConstSource<SR, CH5, T>,
    S6: ConstSource<SR, CH6, T>,
    S7: ConstSource<SR, CH7, T>,
    S8: ConstSource<SR, CH8, T>,
> CH8T<SR, CH1, CH2, CH3, CH4, CH5, CH6, CH7, CH8, T, S1, S2, S3, S4, S5, S6, S7, S8> for (S1, S2, S3, S4, S5, S6, S7, S8) {
    fn combine_channels<const CH: u16>(self) -> (r: CombinedChannels8Tuple<SR, CH, CH1, CH2, CH3, CH4, CH5, CH6, CH7, CH8, S1, S2, S3, S4, S5, S6, S7, S8>)
        ensures
            self.0.wf() && self.1.wf() && self.2.wf() && self.3.wf() && self.4.wf() && self.5.wf() && self.6.wf() && self.7.wf() ==> r.wf(),
            r.remaining() == combined_output(seq![self.0.remaining(), self.1.remaining(), self.2.remaining(), self.3.remaining(), self.4.remaining(), self.5.remaining(), self.6.remaining(), self.7.remaining()], seq![CH1 as nat, CH2 as nat, CH3 as nat, CH4 as nat, CH5 as nat, CH6 as nat, CH7 as nat, CH8 as nat], 0, CH as int),
            r.duration() == max_known(seq![self.0.duration(), self.1.duration(), self.2.duration(), self.3.duration(), self.4.duration(), self.5.duration(), self.6.duration(), self.7.duration()]),
    {
        CombinedChannels8Tuple { sources: self, current: 0 }
    }
}

/// Interleaves the channels of a tuple of 9 sources, with `CH1`, `CH2`, ...
/// channels each, into one source with `CH` channels.
pub struct CombinedChannels9Tuple<const SR: u32, const CH: u16, const CH1: u16, const CH2: u16, const CH3: u16, const CH4: u16, const CH5: u16, const CH6: u16, const CH7: u16, const CH8: u16, const CH9: u16, S1, S2, S3, S4, S5, S6, S7, S8, S9> {
    sources: (S1, S2, S3, S4, S5, S6, S7, S8, S9),
    current: u16,
}

impl<
    const SR: u32,
    const CH: u16,
    const CH1: u16, const CH2: u16, const CH3: u16, const CH4: u16, const CH5: u16, const CH6: u16, const CH7: u16, const CH8: u16, const CH9: u16,
    T,
    S1: ConstSource<SR, CH1, T>,
    S2: ConstSource<SR, CH2, T>,
    S3: ConstSource<SR, CH3, T>,
    S4: ConstSource<SR, CH4, T>,
    S5: ConstSource<SR, CH5, T>,
    S6: ConstSource<SR, CH6, T>,
    S7: ConstSource<SR, CH7, T>,
    S8: ConstSource<SR, CH8, T>,
    S9: ConstSource<SR, CH9, T>,
> ConstSource<SR, CH, T> for CombinedChannels9Tuple<SR, CH, CH1, CH2, CH3, CH4, CH5, CH6, CH7, CH8, CH9, S1, S2, S3, S4, S5, S6, S7, S8, S9> {
    closed spec fn wf(&self) -> bool {
        &&& self.sources.0.wf()
        &&& self.sources.1.wf()
        &&& self.sources.2.wf()
        &&& self.sources.3.wf()
        &&& self.sources.4.wf()
        &&& self.sources.5.wf()
        &&& self.sources.6.wf()
        &&& self.sources.7.wf()
        &&& self.sources.8.wf()
        &&& CH > 0
        &&& CH1 + CH2 + CH3 + CH4 + CH5 + CH6 + CH7 + CH8 + CH9 == CH
        &&& self.current < CH
    }

    closed spec fn remaining(&self) -> Seq<T> {
        combined_output(seq![self.sources.0.remaining(), self.sources.1.remaining(), self.sources.2.remaining(), self.sources.3.remaining(), self.sources.4.remaining(), self.sources.5.remaining(), self.sources.6.remaining(), self.sources.7.remaining(), self.sources.8.remaining()], seq![CH1 as nat, CH2 as nat, CH3 as nat, CH4 as nat, CH5 as nat, CH6 as nat, CH7 as nat, CH8 as nat, CH9 as nat], self.current as int, CH as int)
    }

    closed spec fn duration(&self) -> Option<nat> {
        max_known(seq![self.sources.0.duration(), self.sources.1.duration(), self.sources.2.duration(), self.sources.3.duration(), self.sources.4.duration(), self.sources.5.duration(), self.sources.6.duration(), self.sources.7.duration(), self.sources.8.duration()])
    }

    fn next(&mut self) -> (r: Option<T>) {
        let ghost before = seq![self.sources.0.remaining(), self.sources.1.remaining(), self.sources.2.remaining(), self.sources.3.remaining(), self.sources.4.remaining(), self.sources.5.remaining(), self.sources.6.remaining(), self.sources.7.remaining(), self.sources.8.remaining()];
        let ghost chans = seq![CH1 as nat, CH2 as nat, CH3 as nat, CH4 as nat, CH5 as nat, CH6 as nat, CH7 as nat, CH8 as nat, CH9 as nat];
        let ghost cur = self.current as int;
        let mut channel: u16 = 0;
        assert(channel + CH1 <= CH);
        if channel <= self.current && self.current < channel + CH1 {
            assert(channel_owner(chans, 0, 0, cur) == 0);
            self.current = (self.current + 1) % CH;
            let r = self.sources.0.next();
            proof {
                assert(seq![self.sources.0.remaining(), self.sources.1.remaining(), self.sources.2.remaining(), self.sources.3.remaining(), self.sources.4.remaining(), self.sources.5.remaining(), self.sources.6.remaining(), self.sources.7.remaining(), self.sources.8.remaining()] =~= before.update(0, seq![self.sources.0.remaining(), self.sources.1.remaining(), self.sources.2.remaining(), self.sources.3.remaining(), self.sources.4.remaining(), self.sources.5.remaining(), self.sources.6.remaining(), self.sources.7.remaining(), self.sources.8.remaining()][0]));
                lemma_combined_step(before, seq![self.sources.0.remaining(), self.sources.1.remaining(), self.sources.2.remaining(), self.sources.3.remaining(), self.sources.4.remaining(), self.sources.5.remaining(), self.sources.6.remaining(), self.sources.7.remaining(), self.sources.8.remaining()], chans, cur, CH as int, r);
            }
            return r;
        }
        channel = channel + CH1;
        assert(channel_owner(chans, 0, 0, cur) == channel_owner(chans, 1, channel as int, cur));
        assert(channel + CH2 <= CH);
        if channel <= self.current && self.current < channel + CH2 {
            assert(channel_owner(chans, 0, 0, cur) == 1);
            self.current = (self.current + 1) % CH;
            let r = self.sources.1.next();
            proof {
                assert(seq![self.sources.0.remaining(), self.sources.1.remaining(), self.sources.2.remaining(), self.sources.3.remaining(), self.sources.4.remaining(), self.sources.5.remaining(), self.sources.6.remaining(), self.sources.7.remaining(), self.sources.8.remaining()] =~= before.update(1, seq![self.sources.0.remaining(), self.sources.1.remaining(), self.sources.2.remaining(), self.sources.3.remaining(), self.sources.4.remaining(), self.sources.5.remaining(), self.sources.6.remaining(), self.sources.7.remaining(), self.sources.8.remaining()][1]));
                lemma_combined_step(before, seq![self.sources.0.remaining(), self.sources.1.remaining(), self.sources.2.remaining(), self.sources.3.remaining(), self.sources.4.remaining(), self.sources.5.remaining(), self.sources.6.remaining(), self.sources.7.remaining(), self.sources.8.remaining()], chans, cur, CH as int, r);
            }
            return r;
        }
        channel = channel + CH2;
        assert(channel_owner(chans, 0, 0, cur) == channel_owner(chans, 2, channel as int, cur));
        assert(channel + CH3 <= CH);
        if channel <= self.current && self.current < channel + CH3 {
            assert(channel_owner(chans, 0, 0, cur) == 2);
            self.current = (self.current + 1) % CH;
            let r = self.sources.2.next();
            proof {
                assert(seq![self.sources.0.remaining(), self.sources.1.remaining(), self.sources.2.remaining(), self.sources.3.remaining(), self.sources.4.remaining(), self.sources.5.remaining(), self.sources.6.remaining(), self.sources.7.remaining(), self.sources.8.remaining()] =~= before.update(2, seq![self.sources.0.remaining(), self.sources.1.remaining(), self.sources.2.remaining(), self.sources.3.remaining(), self.sources.4.remaining(), self.sources.5.remaining(), self.sources.6.remaining(), self.sources.7.remaining(), self.sources.8.remaining()][2]));
                lemma_combined_step(before, seq![self.sources.0.remaining(), self.sources.1.remaining(), self.sources.2.remaining(), self.sources.3.remaining(), self.sources.4.remaining(), self.sources.5.remaining(), self.sources.6.remaining(), self.sources.7.remaining(), self.sources.8.remaining()], chans, cur, CH as int, r);
            }
            return r;
        }
        channel = channel + CH3;
        assert(channel_owner(chans, 0, 0, cur) == channel_owner(chans, 3, channel as int, cur));
        assert(channel + CH4 <= CH);
        if channel <= self.current && self.current < channel + CH4 {
            assert(channel_owner(chans, 0, 0, cur) == 3);
            self.current = (self.current + 1) % CH;
            let r = self.sources.3.next();
            proof {
                assert(seq![self.sources.0.remaining(), self.sources.1.remaining(), self.sources.2.remaining(), self.sources.3.remaining(), self.sources.4.remaining(), self.sources.5.remaining(), self.sources.6.remaining(), self.sources.7.remaining(), self.sources.8.remaining()] =~= before.update(3, seq![self.sources.0.remaining(), self.sources.1.remaining(), self.sources.2.remaining(), self.sources.3.remaining(), self.sources.4.remaining(), self.sources.5.remaining(), self.sources.6.remaining(), self.sources.7.remaining(), self.sources.8.remaining()][3]));
                lemma_combined_step(before, seq![self.sources.0.remaining(), self.sources.1.remaining(), self.sources.2.remaining(), self.sources.3.remaining(), self.sources.4.remaining(), self.sources.5.remaining(), self.sources.6.remaining(), self.sources.7.remaining(), self.sources.8.remaining()], chans, cur, CH as int, r);
            }
            return r;
        }
        channel = channel + CH4;
        assert(channel_owner(chans, 0, 0, cur) == channel_owner(chans, 4, channel as int, cur));
        assert(channel + CH5 <= CH);
        if channel <= self.current && self.current < channel + CH5 {
            assert(channel_owner(chans, 0, 0, cur) == 4);
            self.current = (self.current + 1) % CH;
            let r = self.sources.4.next();
            proof {
                assert(seq![self.sources.0.remaining(), self.sources.1.remaining(), self.sources.2.remaining(), self.sources.3.remaining(), self.sources.4.remaining(), self.sources.5.remaining(), self.sources.6.remaining(), self.sources.7.remaining(), self.sources.8.remaining()] =~= before.update(4, seq![self.sources.0.remaining(), self.sources.1.remaining(), self.sources.2.remaining(), self.sources.3.remaining(), self.sources.4.remaining(), self.sources.5.remaining(), self.sources.6.remaining(), self.sources.7.remaining(), self.sources.8.remaining()][4]));
                lemma_combined_step(before, seq![self.sources.0.remaining(), self.sources.1.remaining(), self.sources.2.remaining(), self.sources.3.remaining(), self.sources.4.remaining(), self.sources.5.remaining(), self.sources.6.remaining(), self.sources.7.remaining(), self.sources.8.remaining()], chans, cur, CH as int, r);
            }
            return r;
        }
        channel = channel + CH5;
        assert(channel_owner(chans, 0, 0, cur) == channel_owner(chans, 5, channel as int, cur));
        assert(channel + CH6 <= CH);
        if channel <= self.current && self.current < channel + CH6 {
            assert(channel_owner(chans, 0, 0, cur) == 5);
            self.current = (self.current + 1) % CH;
            let r = self.sources.5.next();
            proof {
                assert(seq![self.sources.0.remaining(), self.sources.1.remaining(), self.sources.2.remaining(), self.sources.3.remaining(), self.sources.4.remaining(), self.sources.5.remaining(), self.sources.6.remaining(), self.sources.7.remaining(), self.sources.8.remaining()] =~= before.update(5, seq![self.sources.0.remaining(), self.sources.1.remaining(), self.sources.2.remaining(), self.sources.3.remaining(), self.sources.4.remaining(), self.sources.5.remaining(), self.sources.6.remaining(), self.sources.7.remaining(), self.sources.8.remaining()][5]));
                lemma_combined_step(before, seq![self.sources.0.remaining(), self.sources.1.remaining(), self.sources.2.remaining(), self.sources.3.remaining(), self.sources.4.remaining(), self.sources.5.remaining(), self.sources.6.remaining(), self.sources.7.remaining(), self.sources.8.remaining()], chans, cur, CH as int, r);
            }
            return r;
        }
        channel = channel + CH6;
        assert(channel_owner(chans, 0, 0, cur) == channel_owner(chans, 6, channel as int, cur));
        assert(channel + CH7 <= CH);
        if channel <= self.current && self.current < channel + CH7 {
            assert(channel_owner(chans, 0, 0, cur) == 6);
            self.current = (self.current + 1) % CH;
            let r = self.sources.6.next();
            proof {
                assert(seq![self.sources.0.remaining(), self.sources.1.remaining(), self.sources.2.remaining(), self.sources.3.remaining(), self.sources.4.remaining(), self.sources.5.remaining(), self.sources.6.remaining(), self.sources.7.remaining(), self.sources.8.remaining()] =~= before.update(6, seq![self.sources.0.remaining(), self.sources.1.remaining(), self.sources.2.remaining(), self.sources.3.remaining(), self.sources.4.remaining(), self.sources.5.remaining(), self.sources.6.remaining(), self.sources.7.remaining(), self.sources.8.remaining()][6]));
                lemma_combined_step(before, seq![self.sources.0.remaining(), self.sources.1.remaining(), self.sources.2.remaining(), self.sources.3.remaining(), self.sources.4.remaining(), self.sources.5.remaining(), self.sources.6.remaining(), self.sources.7.remaining(), self.sources.8.remaining()], chans, cur, CH as int, r);
            }
            return r;
        }
        channel = channel + CH7;
        assert(channel_owner(chans, 0, 0, cur) == channel_owner(chans, 7, channel as int, cur));
        assert(channel + CH8 <= CH);
        if channel <= self.current && self.current < channel + CH8 {
            assert(channel_owner(chans, 0, 0, cur) == 7);
            self.current = (self.current + 1) % CH;
            let r = self.sources.7.next();
            proof {
                assert(seq![self.sources.0.remaining(), self.sources.1.remaining(), self.sources.2.remaining(), self.sources.3.remaining(), self.sources.4.remaining(), self.sources.5.remaining(), self.sources.6.remaining(), self.sources.7.remaining(), self.sources.8.remaining()] =~= before.update(7, seq![self.sources.0.remaining(), self.sources.1.remaining(), self.sources.2.remaining(), self.sources.3.remaining(), self.sources.4.remaining(), self.sources.5.remaining(), self.sources.6.remaining(), self.sources.7.remaining(), self.sources.8.remaining()][7]));
                lemma_combined_step(before, seq![self.sources.0.remaining(), self.sources.1.remaining(), self.sources.2.remaining(), self.sources.3.remaining(), self.sources.4.remaining(), self.sources.5.remaining(), self.sources.6.remaining(), self.sources.7.remaining(), self.sources.8.remaining()], chans, cur, CH as int, r);
            }
            return r;
        }
        channel = channel + CH8;
        assert(channel_owner(chans, 0, 0, cur) == channel_owner(chans, 8, channel as int, cur));
        assert(channel + CH9 <= CH);
        if channel <= self.current && self.current < channel + CH9 {
            assert(channel_owner(chans, 0, 0, cur) == 8);
            self.current = (self.current + 1) % CH;
            let r = self.sources.8.next();
            proof {
                assert(seq![self.sources.0.remaining(), self.sources.1.remaining(), self.sources.2.remaining(), self.sources.3.remaining(), self.sources.4.remaining(), self.sources.5.remaining(), self.sources.6.remaining(), self.sources.7.remaining(), self.sources.8.remaining()] =~= before.update(8, seq![self.sources.0.remaining(), self.sources.1.remaining(), self.sources.2.remaining(), self.sources.3.remaining(), self.sources.4.remaining(), self.sources.5.remaining(), self.sources.6.remaining(), self.sources.7.remaining(), self.sources.8.remaining()][8]));
                lemma_combined_step(before, seq![self.sources.0.remaining(), self.sources.1.remaining(), self.sources.2.remaining(), self.sources.3.remaining(), self.sources.4.remaining(), self.sources.5.remaining(), self.sources.6.remaining(), self.sources.7.remaining(), self.sources.8.remaining()], chans, cur, CH as int, r);
            }
            return r;
        }
        None
    }

    fn total_duration_nanos(&self) -> (r: Option<u128>) {
        let ghost ds = seq![self.sources.0.duration(), self.sources.1.duration(), self.sources.2.duration(), self.sources.3.duration(), self.sources.4.duration(), self.sources.5.duration(), self.sources.6.duration(), self.sources.7.duration(), self.sources.8.duration()];
        let mut acc: Option<u128> = None;
        assert(ds.take(0) =~= Seq::<Option<nat>>::empty());
        let d = self.sources.0.total_duration_nanos();
        acc = max_known_step(acc, d, Ghost(ds.take(0)));
        assert(ds.take(0).push(ds[0]) =~= ds.take(1));
        let d = self.sources.1.total_duration_nanos();
        acc = max_known_step(acc, d, Ghost(ds.take(1)));
        assert(ds.take(1).push(ds[1]) =~= ds.take(2));
        let d = self.sources.2.total_duration_nanos();
        acc = max_known_step(acc, d, Ghost(ds.take(2)));
        assert(ds.take(2).push(ds[2]) =~= ds.take(3));
        let d = self.sources.3.total_duration_nanos();
        acc = max_known_step(acc, d, Ghost(ds.take(3)));
        assert(ds.take(3).push(ds[3]) =~= ds.take(4));
        let d = self.sources.4.total_duration_nanos();
        acc = max_known_step(acc, d, Ghost(ds.take(4)));
        assert(ds.take(4).push(ds[4]) =~= ds.take(5));
        let d = self.sources.5.total_duration_nanos();
        acc = max_known_step(acc, d, Ghost(ds.take(5)));
        assert(ds.take(5).push(ds[5]) =~= ds.take(6));
        let d = self.sources.6.total_duration_nanos();
        acc = max_known_step(acc, d, Ghost(ds.take(6)));
        assert(ds.take(6).push(ds[6]) =~= ds.take(7));
        let d = self.sources.7.total_duration_nanos();
        acc = max_known_step(acc, d, Ghost(ds.take(7)));
        assert(ds.take(7).push(ds[7]) =~= ds.take(8));
        let d = self.sources.8.total_duration_nanos();
        acc = max_known_step(acc, d, Ghost(ds.take(8)));
        assert(ds.take(8).push(ds[8]) =~= ds.take(9));
        assert(ds.take(9) =~= ds);
        acc
    }
}

/// Combines the channels of a tuple of 9 sources into one source; the
/// output channel count must be the sum of the inputs' channel counts.
pub trait CH9T<const SR: u32, const CH1: u16, const CH2: u16, const CH3: u16, const CH4: u16, const CH5: u16, const CH6: u16, const CH7: u16, const CH8: u16, const CH9: u16, T, S1, S2, S3, S4, S5, S6, S7, S8, S9> {
    fn combine_channels<const CH: u16>(self) -> (r: CombinedChannels9Tuple<SR, CH, CH1, CH2, CH3, CH4, CH5, CH6, CH7, CH8, CH9, S1, S2, S3, S4, S5, S6, S7, S8, S9>)
        requires
            CH > 0,
            CH1 + CH2 + CH3 + CH4 + CH5 + CH6 + CH7 + CH8 + CH9 == CH,
    ;
}

impl<
    const SR: u32,
    const CH1: u16, const CH2: u16, const CH3: u16, const CH4: u16, const CH5: u16, const CH6: u16, const CH7: u16, const CH8: u16, const CH9: u16,
    T,
    S1: ConstSource<SR, CH1, T>,
    S2: ConstSource<SR, CH2, T>,
    S3: ConstSource<SR, CH3, T>,
    S4: ConstSource<SR, CH4, T>,
    S5: ConstSource<SR, CH5, T>,
    S6: ConstSource<SR, CH6, T>,
    S7: ConstSource<SR, CH7, T>,
    S8: ConstSource<SR, CH8, T>,
    S9: ConstSource<SR, CH9, T>,
> CH9T<SR, CH1, CH2, CH3, CH4, CH5, CH6, CH7, CH8, CH9, T, S1, S2, S3, S4, S5, S6, S7, S8, S9> for (S1, S2, S3, S4, S5, S6, S7, S8, S9) {
    fn combine_channels<const CH: u16>(self) -> (r: CombinedChannels9Tuple<SR, CH, CH1, CH2, CH3, CH4, CH5, CH6, CH7, CH8, CH9, S1, S2, S3, S4, S5, S6, S7, S8, S9>)
        ensures
            self.0.wf() && self.1.wf() && self.2.wf() && self.3.wf() && self.4.wf() && self.5.wf() && self.6.wf() && self.7.wf() && self.8.wf() ==> r.wf(),
            r.remaining() == combined_output(seq![self.0.remaining(), self.1.remaining(), self.2.remaining(), self.3.remaining(), self.4.remaining(), self.5.remaining(), self.6.remaining(), self.7.remaining(), self.8.remaining()], seq![CH1 as nat, CH2 as nat, CH3 as nat, CH4 as nat, CH5 as nat, CH6 as nat, CH7 as nat, CH8 as nat, CH9 as nat], 0, CH as int),
            r.duration() == max_known(seq![self.0.duration(), self.1.duration(), self.2.duration(), self.3.duration(), self.4.duration(), self.5.duration(), self.6.duration(), self.7.duration(), self.8.duration()]),
    {
        CombinedChannels9Tuple { sources: self, current: 0 }
    }
}

/// Interleaves the channels of a tuple of 10 sources, with `CH1`, `CH2`, ...
/// channels each, into one source with `CH` channels.
pub struct CombinedChannels10Tuple<const SR: u32, const CH: u16, const CH1: u16, const CH2: u16, const CH3: u16, const CH4: u16, const CH5: u16, const CH6: u16, const CH7: u16, const CH8: u16, const CH9: u16, const CH10: u16, S1, S2, S3, S4, S5, S6, S7, S8, S9, S10> {
    sources: (S1, S2, S3, S4, S5, S6, S7, S8, S9, S10),
    current: u16,
}

impl<
    const SR: u32,
    const CH: u16,
    const CH1: u16, const CH2: u16, const CH3: u16, const CH4: u16, const CH5: u16, const CH6: u16, const CH7: u16, const CH8: u16, const CH9: u16, const CH10: u16,
    T,
    S1: ConstSource<SR, CH1, T>,
    S2: ConstSource<SR, CH2, T>,
    S3: ConstSource<SR, CH3, T>,
    S4: ConstSource<SR, CH4, T>,
    S5: ConstSource<SR, CH5, T>,
    S6: ConstSource<SR, CH6, T>,
    S7: ConstSource<SR, CH7, T>,
    S8: ConstSource<SR, CH8, T>,
    S9: ConstSource<SR, CH9, T>,
    S10: ConstSource<SR, CH10, T>,
> ConstSource<SR, CH, T> for CombinedChannels10Tuple<SR, CH, CH1, CH2, CH3, CH4, CH5, CH6, CH7, CH8, CH9, CH10, S1, S2, S3, S4, S5, S6, S7, S8, S9, S10> {
    closed spec fn wf(&self) -> bool {
        &&& self.sources.0.wf()
        &&& self.sources.1.wf()
        &&& self.sources.2.wf()
        &&& self.sources.3.wf()
        &&& self.sources.4.wf()
        &&& self.sources.5.wf()
        &&& self.sources.6.wf()
        &&& self.sources.7.wf()
        &&& self.sources.8.wf()
        &&& self.sources.9.wf()
        &&& CH > 0
        &&& CH1 + CH2 + CH3 + CH4 + CH5 + CH6 + CH7 + CH8 + CH9 + CH10 == CH
        &&& self.current < CH
    }

    closed spec fn remaining(&self) -> Seq<T> {
        combined_output(seq![self.sources.0.remaining(), self.sources.1.remaining(), self.sources.2.remaining(), self.sources.3.remaining(), self.sources.4.remaining(), self.sources.5.remaining(), self.sources.6.remaining(), self.sources.7.remaining(), self.sources.8.remaining(), self.sources.9.remaining()], seq![CH1 as nat, CH2 as nat, CH3 as nat, CH4 as nat, CH5 as nat, CH6 as nat, CH7 as nat, CH8 as nat, CH9 as nat, CH10 as nat], self.current as int, CH as int)
    }

    closed spec fn duration(&self) -> Option<nat> {
        max_known(seq![self.sources.0.duration(), self.sources.1.duration(), self.sources.2.duration(), self.sources.3.duration(), self.sources.4.duration(), self.sources.5.duration(), self.sources.6.duration(), self.sources.7.duration(), self.sources.8.duration(), self.sources.9.duration()])
    }

    fn next(&mut self) -> (r: Option<T>) {
        let ghost before = seq![self.sources.0.remaining(), self.sources.1.remaining(), self.sources.2.remaining(), self.sources.3.remaining(), self.sources.4.remaining(), self.sources.5.remaining(), self.sources.6.remaining(), self.sources.7.remaining(), self.sources.8.remaining(), self.sources.9.remaining()];
        let ghost chans = seq![CH1 as nat, CH2 as nat, CH3 as nat, CH4 as nat, CH5 as nat, CH6 as nat, CH7 as nat, CH8 as nat, CH9 as nat, CH10 as nat];
        let ghost cur = self.current as int;
        let mut channel: u16 = 0;
        assert(channel + CH1 <= CH);
        if channel <= self.current && self.current < channel + CH1 {
            assert(channel_owner(chans, 0, 0, cur) == 0);
            self.current = (self.current + 1) % CH;
            let r = self.sources.0.next();
            proof {
                assert(seq![self.sources.0.remaining(), self.sources.1.remaining(), self.sources.2.remaining(), self.sources.3.remaining(), self.sources.4.remaining(), self.sources.5.remaining(), self.sources.6.remaining(), self.sources.7.remaining(), self.sources.8.remaining(), self.sources.9.remaining()] =~= before.update(0, seq![self.sources.0.remaining(), self.sources.1.remaining(), self.sources.2.remaining(), self.sources.3.remaining(), self.sources.4.remaining(), self.sources.5.remaining(), self.sources.6.remaining(), self.sources.7.remaining(), self.sources.8.remaining(), self.sources.9.remaining()][0]));
                lemma_combined_step(before, seq![self.sources.0.remaining(), self.sources.1.remaining(), self.sources.2.remaining(), self.sources.3.remaining(), self.sources.4.remaining(), self.sources.5.remaining(), self.sources.6.remaining(), self.sources.7.remaining(), self.sources.8.remaining(), self.sources.9.remaining()], chans, cur, CH as int, r);
            }
            return r;
        }
        channel = channel + CH1;
        assert(channel_owner(chans, 0, 0, cur) == channel_owner(chans, 1, channel as int, cur));
        assert(channel + CH2 <= CH);
        if channel <= self.current && self.current < channel + CH2 {
            assert(channel_owner(chans, 0, 0, cur) == 1);
            self.current = (self.current + 1) % CH;
            let r = self.sources.1.next();
            proof {
                assert(seq![self.sources.0.remaining(), self.sources.1.remaining(), self.sources.2.remaining(), self.sources.3.remaining(), self.sources.4.remaining(), self.sources.5.remaining(), self.sources.6.remaining(), self.sources.7.remaining(), self.sources.8.remaining(), self.sources.9.remaining()] =~= before.update(1, seq![self.sources.0.remaining(), self.sources.1.remaining(), self.sources.2.remaining(), self.sources.3.remaining(), self.sources.4.remaining(), self.sources.5.remaining(), self.sources.6.remaining(), self.sources.7.remaining(), self.sources.8.remaining(), self.sources.9.remaining()][1]));
                lemma_combined_step(before, seq![self.sources.0.remaining(), self.sources.1.remaining(), self.sources.2.remaining(), self.sources.3.remaining(), self.sources.4.remaining(), self.sources.5.remaining(), self.sources.6.remaining(), self.sources.7.remaining(), self.sources.8.remaining(), self.sources.9.remaining()], chans, cur, CH as int, r);
            }
            return r;
        }
        channel = channel + CH2;
        assert(channel_owner(chans, 0, 0, cur) == channel_owner(chans, 2, channel as int, cur));
        assert(channel + CH3 <= CH);
        if channel <= self.current && self.current < channel + CH3 {
            assert(channel_owner(chans, 0, 0, cur) == 2);
            self.current = (self.current + 1) % CH;
            let r = self.sources.2.next();
            proof {
                assert(seq![self.sources.0.remaining(), self.sources.1.remaining(), self.sources.2.remaining(), self.sources.3.remaining(), self.sources.4.remaining(), self.sources.5.remaining(), self.sources.6.remaining(), self.sources.7.remaining(), self.sources.8.remaining(), self.sources.9.remaining()] =~= before.update(2, seq![self.sources.0.remaining(), self.sources.1.remaining(), self.sources.2.remaining(), self.sources.3.remaining(), self.sources.4.remaining(), self.sources.5.remaining(), self.sources.6.remaining(), self.sources.7.remaining(), self.sources.8.remaining(), self.sources.9.remaining()][2]));
                lemma_combined_step(before, seq![self.sources.0.remaining(), self.sources.1.remaining(), self.sources.2.remaining(), self.sources.3.remaining(), self.sources.4.remaining(), self.sources.5.remaining(), self.sources.6.remaining(), self.sources.7.remaining(), self.sources.8.remaining(), self.sources.9.remaining()], chans, cur, CH as int, r);
            }
            return r;
        }
        channel = channel + CH3;
        assert(channel_owner(chans, 0, 0, cur) == channel_owner(chans, 3, channel as int, cur));
        assert(channel + CH4 <= CH);
        if channel <= self.current && self.current < channel + CH4 {
            assert(channel_owner(chans, 0, 0, cur) == 3);
            self.current = (self.current + 1) % CH;
            let r = self.sources.3.next();
            proof {
                assert(seq![self.sources.0.remaining(), self.sources.1.remaining(), self.sources.2.remaining(), self.sources.3.remaining(), self.sources.4.remaining(), self.sources.5.remaining(), self.sources.6.remaining(), self.sources.7.remaining(), self.sources.8.remaining(), self.sources.9.remaining()] =~= before.update(3, seq![self.sources.0.remaining(), self.sources.1.remaining(), self.sources.2.remaining(), self.sources.3.remaining(), self.sources.4.remaining(), self.sources.5.remaining(), self.sources.6.remaining(), self.sources.7.remaining(), self.sources.8.remaining(), self.sources.9.remaining()][3]));
                lemma_combined_step(before, seq![self.sources.0.remaining(), self.sources.1.remaining(), self.sources.2.remaining(), self.sources.3.remaining(), self.sources.4.remaining(), self.sources.5.remaining(), self.sources.6.remaining(), self.sources.7.remaining(), self.sources.8.remaining(), self.sources.9.remaining()], chans, cur, CH as int, r);
            }
            return r;
        }
        channel = channel + CH4;
        assert(channel_owner(chans, 0, 0, cur) == channel_owner(chans, 4, channel as int, cur));
        assert(channel + CH5 <= CH);
        if channel <= self.current && self.current < channel + CH5 {
            assert(channel_owner(chans, 0, 0, cur) == 4);
            self.current = (self.current + 1) % CH;
            let r = self.sources.4.next();
            proof {
                assert(seq![self.sources.0.remaining(), self.sources.1.remaining(), self.sources.2.remaining(), self.sources.3.remaining(), self.sources.4.remaining(), self.sources.5.remaining(), self.sources.6.remaining(), self.sources.7.remaining(), self.sources.8.remaining(), self.sources.9.remaining()] =~= before.update(4, seq![self.sources.0.remaining(), self.sources.1.remaining(), self.sources.2.remaining(), self.sources.3.remaining(), self.sources.4.remaining(), self.sources.5.remaining(), self.sources.6.remaining(), self.sources.7.remaining(), self.sources.8.remaining(), self.sources.9.remaining()][4]));
                lemma_combined_step(before, seq![self.sources.0.remaining(), self.sources.1.remaining(), self.sources.2.remaining(), self.sources.3.remaining(), self.sources.4.remaining(), self.sources.5.remaining(), self.sources.6.remaining(), self.sources.7.remaining(), self.sources.8.remaining(), self.sources.9.remaining()], chans, cur, CH as int, r);
            }
            return r;
        }
        channel = channel + CH5;
        assert(channel_owner(chans, 0, 0, cur) == channel_owner(chans, 5, channel as int, cur));
        assert(channel + CH6 <= CH);
        if channel <= self.current && self.current < channel + CH6 {
            assert(channel_owner(chans, 0, 0, cur) == 5);
            self.current = (self.current + 1) % CH;
            let r = self.sources.5.next();
            proof {
                assert(seq![self.sources.0.remaining(), self.sources.1.remaining(), self.sources.2.remaining(), self.sources.3.remaining(), self.sources.4.remaining(), self.sources.5.remaining(), self.sources.6.remaining(), self.sources.7.remaining(), self.sources.8.remaining(), self.sources.9.remaining()] =~= before.update(5, seq![self.sources.0.remaining(), self.sources.1.remaining(), self.sources.2.remaining(), self.sources.3.remaining(), self.sources.4.remaining(), self.sources.5.remaining(), self.sources.6.remaining(), self.sources.7.remaining(), self.sources.8.remaining(), self.sources.9.remaining()][5]));
                lemma_combined_step(before, seq![self.sources.0.remaining(), self.sources.1.remaining(), self.sources.2.remaining(), self.sources.3.remaining(), self.sources.4.remaining(), self.sources.5.remaining(), self.sources.6.remaining(), self.sources.7.remaining(), self.sources.8.remaining(), self.sources.9.remaining()], chans, cur, CH as int, r);
            }
            return r;
        }
        channel = channel + CH6;
        assert(channel_owner(chans, 0, 0, cur) == channel_owner(chans, 6, channel as int, cur));
        assert(channel + CH7 <= CH);
        if channel <= self.current && self.current < channel + CH7 {
            assert(channel_owner(chans, 0, 0, cur) == 6);
            self.current = (self.current + 1) % CH;
            let r = self.sources.6.next();
            proof {
                assert(seq![self.sources.0.remaining(), self.sources.1.remaining(), self.sources.2.remaining(), self.sources.3.remaining(), self.sources.4.remaining(), self.sources.5.remaining(), self.sources.6.remaining(), self.sources.7.remaining(), self.sources.8.remaining(), self.sources.9.remaining()] =~= before.update(6, seq![self.sources.0.remaining(), self.sources.1.remaining(), self.sources.2.remaining(), self.sources.3.remaining(), self.sources.4.remaining(), self.sources.5.remaining(), self.sources.6.remaining(), self.sources.7.remaining(), self.sources.8.remaining(), self.sources.9.remaining()][6]));
                lemma_combined_step(before, seq![self.sources.0.remaining(), self.sources.1.remaining(), self.sources.2.remaining(), self.sources.3.remaining(), self.sources.4.remaining(), self.sources.5.remaining(), self.sources.6.remaining(), self.sources.7.remaining(), self.sources.8.remaining(), self.sources.9.remaining()], chans, cur, CH as int, r);
            }
            return r;
        }
        channel = channel + CH7;
        assert(channel_owner(chans, 0, 0, cur) == channel_owner(chans, 7, channel as int, cur));
        assert(channel + CH8 <= CH);
        if channel <= self.current && self.current < channel + CH8 {
            assert(channel_owner(chans, 0, 0, cur) == 7);
            self.current = (self.current + 1) % CH;
            let r = self.sources.7.next();
            proof {
                assert(seq![self.sources.0.remaining(), self.sources.1.remaining(), self.sources.2.remaining(), self.sources.3.remaining(), self.sources.4.remaining(), self.sources.5.remaining(), self.sources.6.remaining(), self.sources.7.remaining(), self.sources.8.remaining(), self.sources.9.remaining()] =~= before.update(7, seq![self.sources.0.remaining(), self.sources.1.remaining(), self.sources.2.remaining(), self.sources.3.remaining(), self.sources.4.remaining(), self.sources.5.remaining(), self.sources.6.remaining(), self.sources.7.remaining(), self.sources.8.remaining(), self.sources.9.remaining()][7]));
                lemma_combined_step(before, seq![self.sources.0.remaining(), self.sources.1.remaining(), self.sources.2.remaining(), self.sources.3.remaining(), self.sources.4.remaining(), self.sources.5.remaining(), self.sources.6.remaining(), self.sources.7.remaining(), self.sources.8.remaining(), self.sources.9.remaining()], chans, cur, CH as int, r);
            }
            return r;
        }
        channel = channel + CH8;
        assert(channel_owner(chans, 0, 0, cur) == channel_owner(chans, 8, channel as int, cur));
        assert(channel + CH9 <= CH);
        if channel <= self.current && self.current < channel + CH9 {
            assert(channel_owner(chans, 0, 0, cur) == 8);
            self.current = (self.current + 1) % CH;
            let r = self.sources.8.next();
            proof {
                assert(seq![self.sources.0.remaining(), self.sources.1.remaining(), self.sources.2.remaining(), self.sources.3.remaining(), self.sources.4.remaining(), self.sources.5.remaining(), self.sources.6.remaining(), self.sources.7.remaining(), self.sources.8.remaining(), self.sources.9.remaining()] =~= before.update(8, seq![self.sources.0.remaining(), self.sources.1.remaining(), self.sources.2.remaining(), self.sources.3.remaining(), self.sources.4.remaining(), self.sources.5.remaining(), self.sources.6.remaining(), self.sources.7.remaining(), self.sources.8.remaining(), self.sources.9.remaining()][8]));
                lemma_combined_step(before, seq![self.sources.0.remaining(), self.sources.1.remaining(), self.sources.2.remaining(), self.sources.3.remaining(), self.sources.4.remaining(), self.sources.5.remaining(), self.sources.6.remaining(), self.sources.7.remaining(), self.sources.8.remaining(), self.sources.9.remaining()], chans, cur, CH as int, r);
            }
            return r;
        }
        channel = channel + CH9;
        assert(channel_owner(chans, 0, 0, cur) == channel_owner(chans, 9, channel as int, cur));
        assert(channel + CH10 <= CH);
        if channel <= self.current && self.current < channel + CH10 {
            assert(channel_owner(chans, 0, 0, cur) == 9);
            self.current = (self.current + 1) % CH;
            let r = self.sources.9.next();
            proof {
                assert(seq![self.sources.0.remaining(), self.sources.1.remaining(), self.sources.2.remaining(), self.sources.3.remaining(), self.sources.4.remaining(), self.sources.5.remaining(), self.sources.6.remaining(), self.sources.7.remaining(), self.sources.8.remaining(), self.sources.9.remaining()] =~= before.update(9, seq![self.sources.0.remaining(), self.sources.1.remaining(), self.sources.2.remaining(), self.sources.3.remaining(), self.sources.4.remaining(), self.sources.5.remaining(), self.sources.6.remaining(), self.sources.7.remaining(), self.sources.8.remaining(), self.sources.9.remaining()][9]));
                lemma_combined_step(before, seq![self.sources.0.remaining(), self.sources.1.remaining(), self.sources.2.remaining(), self.sources.3.remaining(), self.sources.4.remaining(), self.sources.5.remaining(), self.sources.6.remaining(), self.sources.7.remaining(), self.sources.8.remaining(), self.sources.9.remaining()], chans, cur, CH as int, r);
            }
            return r;
        }
        None
    }

    fn total_duration_nanos(&self) -> (r: Option<u128>) {
        let ghost ds = seq![self.sources.0.duration(), self.sources.1.duration(), self.sources.2.duration(), self.sources.3.duration(), self.sources.4.duration(), self.sources.5.duration(), self.sources.6.duration(), self.sources.7.duration(), self.sources.8.duration(), self.sources.9.duration()];
        let mut acc: Option<u128> = None;
        assert(ds.take(0) =~= Seq::<Option<nat>>::empty());
        let d = self.sources.0.total_duration_nanos();
        acc = max_known_step(acc, d, Ghost(ds.take(0)));
        assert(ds.take(0).push(ds[0]) =~= ds.take(1));
        let d = self.sources.1.total_duration_nanos();
        acc = max_known_step(acc, d, Ghost(ds.take(1)));
        assert(ds.take(1).push(ds[1]) =~= ds.take(2));
        let d = self.sources.2.total_duration_nanos();
        acc = max_known_step(acc, d, Ghost(ds.take(2)));
        assert(ds.take(2).push(ds[2]) =~= ds.take(3));
        let d = self.sources.3.total_duration_nanos();
        acc = max_known_step(acc, d, Ghost(ds.take(3)));
        assert(ds.take(3).push(ds[3]) =~= ds.take(4));
        let d = self.sources.4.total_duration_nanos();
        acc = max_known_step(acc, d, Ghost(ds.take(4)));
        assert(ds.take(4).push(ds[4]) =~= ds.take(5));
        let d = self.sources.5.total_duration_nanos();
        acc = max_known_step(acc, d, Ghost(ds.take(5)));
        assert(ds.take(5).push(ds[5]) =~= ds.take(6));
        let d = self.sources.6.total_duration_nanos();
        acc = max_known_step(acc, d, Ghost(ds.take(6)));
        assert(ds.take(6).push(ds[6]) =~= ds.take(7));
        let d = self.sources.7.total_duration_nanos();
        acc = max_known_step(acc, d, Ghost(ds.take(7)));
        assert(ds.take(7).push(ds[7]) =~= ds.take(8));
        let d = self.sources.8.total_duration_nanos();
        acc = max_known_step(acc, d, Ghost(ds.take(8)));
        assert(ds.take(8).push(ds[8]) =~= ds.take(9));
        let d = self.sources.9.total_duration_nanos();
        acc = max_known_step(acc, d, Ghost(ds.take(9)));
        assert(ds.take(9).push(ds[9]) =~= ds.take(10));
        assert(ds.take(10) =~= ds);
        acc
    }
}

/// Combines the channels of a tuple of 10 sources into one source; the
/// output channel count must be the sum of the inputs' channel counts.
pub trait CH10T<const SR: u32, const CH1: u16, const CH2: u16, const CH3: u16, const CH4: u16, const CH5: u16, const CH6: u16, const CH7: u16, const CH8: u16, const CH9: u16, const CH10: u16, T, S1, S2, S3, S4, S5, S6, S7, S8, S9, S10> {
    fn combine_channels<const CH: u16>(self) -> (r: CombinedChannels10Tuple<SR, CH, CH1, CH2, CH3, CH4, CH5, CH6, CH7, CH8, CH9, CH10, S1, S2, S3, S4, S5, S6, S7, S8, S9, S10>)
        requires
            CH > 0,
            CH1 + CH2 + CH3 + CH4 + CH5 + CH6 + CH7 + CH8 + CH9 + CH10 == CH,
    ;
}

impl<
    const SR: u32,
    const CH1: u16, const CH2: u16, const CH3: u16, const CH4: u16, const CH5: u16, const CH6: u16, const CH7: u16, const CH8: u16, const CH9: u16, const CH10: u16,
    T,
    S1: ConstSource<SR, CH1, T>,
    S2: ConstSource<SR, CH2, T>,
    S3: ConstSource<SR, CH3, T>,
    S4: ConstSource<SR, CH4, T>,
    S5: ConstSource<SR, CH5, T>,
    S6: ConstSource<SR, CH6, T>,
    S7: ConstSource<SR, CH7, T>,
    S8: ConstSource<SR, CH8, T>,
    S9: ConstSource<SR, CH9, T>,
    S10: ConstSource<SR, CH10, T>,
> CH10T<SR, CH1, CH2, CH3, CH4, CH5, CH6, CH7, CH8, CH9, CH10, T, S1, S2, S3, S4, S5, S6, S7, S8, S9, S10> for (S1, S2, S3, S4, S5, S6, S7, S8, S9, S10) {
    fn combine_channels<const CH: u16>(self) -> (r: CombinedChannels10Tuple<SR, CH, CH1, CH2, CH3, CH4, CH5, CH6, CH7, CH8, CH9, CH10, S1, S2, S3, S4, S5, S6, S7, S8, S9, S10>)
        ensures
            self.0.wf() && self.1.wf() && self.2.wf() && self.3.wf() && self.4.wf() && self.5.wf() && self.6.wf() && self.7.wf() && self.8.wf() && self.9.wf() ==> r.wf(),
            r.remaining() == combined_output(seq![self.0.remaining(), self.1.remaining(), self.2.remaining(), self.3.remaining(), self.4.remaining(), self.5.remaining(), self.6.remaining(), self.7.remaining(), self.8.remaining(), self.9.remaining()], seq![CH1 as nat, CH2 as nat, CH3 as nat, CH4 as nat, CH5 as nat, CH6 as nat, CH7 as nat, CH8 as nat, CH9 as nat, CH10 as nat], 0, CH as int),
            r.duration() == max_known(seq![self.0.duration(), self.1.duration(), self.2.duration(), self.3.duration(), self.4.duration(), self.5.duration(), self.6.duration(), self.7.duration(), self.8.duration(), self.9.duration()]),
    {
        CombinedChannels10Tuple { sources: self, current: 0 }
    }
}

/// Interleaves the channels of a tuple of 11 sources, with `CH1`, `CH2`, ...
/// channels each, into one source with `CH` channels.
pub struct CombinedChannels11Tuple<const SR: u32, const CH: u16, const CH1: u16, const CH2: u16, const CH3: u16, const CH4: u16, const CH5: u16, const CH6: u16, const CH7: u16, const CH8: u16, const CH9: u16, const CH10: u16, const CH11: u16, S1, S2, S3, S4, S5, S6, S7, S8, S9, S10, S11> {
    sources: (S1, S2, S3, S4, S5, S6, S7, S8, S9, S10, S11),
    current: u16,
}

impl<
    const SR: u32,
    const CH: u16,
    const CH1: u16, const CH2: u16, const CH3: u16, const CH4: u16, const CH5: u16, const CH6: u16, const CH7: u16, const CH8: u16, const CH9: u16, const CH10: u16, const CH11: u16,
    T,
    S1: ConstSource<SR, CH1, T>,
    S2: ConstSource<SR, CH2, T>,
    S3: ConstSource<SR, CH3, T>,
    S4: ConstSource<SR, CH4, T>,
    S5: ConstSource<SR, CH5, T>,
    S6: ConstSource<SR, CH6, T>,
    S7: ConstSource<SR, CH7, T>,
    S8: ConstSource<SR, CH8, T>,
    S9: ConstSource<SR, CH9, T>,
    S10: ConstSource<SR, CH10, T>,
    S11: ConstSource<SR, CH11, T>,
> ConstSource<SR, CH, T> for CombinedChannels11Tuple<SR, CH, CH1, CH2, CH3, CH4, CH5, CH6, CH7, CH8, CH9, CH10, CH11, S1, S2, S3, S4, S5, S6, S7, S8, S9, S10, S11> {
    closed spec fn wf(&self) -> bool {
        &&& self.sources.0.wf()
        &&& self.sources.1.wf()
        &&& self.sources.2.wf()
        &&& self.sources.3.wf()
        &&& self.sources.4.wf()
        &&& self.sources.5.wf()
        &&& self.sources.6.wf()
        &&& self.sources.7.wf()
        &&& self.sources.8.wf()
        &&& self.sources.9.wf()
        &&& self.sources.10.wf()
        &&& CH > 0
        &&& CH1 + CH2 + CH3 + CH4 + CH5 + CH6 + CH7 + CH8 + CH9 + CH10 + CH11 == CH
        &&& self.current < CH
    }

    closed spec fn remaining(&self) -> Seq<T> {
        combined_output(seq![self.sources.0.remaining(), self.sources.1.remaining(), self.sources.2.remaining(), self.sources.3.remaining(), self.sources.4.remaining(), self.sources.5.remaining(), self.sources.6.remaining(), self.sources.7.remaining(), self.sources.8.remaining(), self.sources.9.remaining(), self.sources.10.remaining()], seq![CH1 as nat, CH2 as nat, CH3 as nat, CH4 as nat, CH5 as nat, CH6 as nat, CH7 as nat, CH8 as nat, CH9 as nat, CH10 as nat, CH11 as nat], self.current as int, CH as int)
    }

    closed spec fn duration(&self) -> Option<nat> {
        max_known(seq![self.sources.0.duration(), self.sources.1.duration(), self.sources.2.duration(), self.sources.3.duration(), self.sources.4.duration(), self.sources.5.duration(), self.sources.6.duration(), self.sources.7.duration(), self.sources.8.duration(), self.sources.9.duration(), self.sources.10.duration()])
    }

    fn next(&mut self) -> (r: Option<T>) {
        let ghost before = seq![self.sources.0.remaining(), self.sources.1.remaining(), self.sources.2.remaining(), self.sources.3.remaining(), self.sources.4.remaining(), self.sources.5.remaining(), self.sources.6.remaining(), self.sources.7.remaining(), self.sources.8.remaining(), self.sources.9.remaining(), self.sources.10.remaining()];
        let ghost chans = seq![CH1 as nat, CH2 as nat, CH3 as nat, CH4 as nat, CH5 as nat, CH6 as nat, CH7 as nat, CH8 as nat, CH9 as nat, CH10 as nat, CH11 as nat];
        let ghost cur = self.current as int;
        let mut channel: u16 = 0;
        assert(channel + CH1 <= CH);
        if channel <= self.current && self.current < channel + CH1 {
            assert(channel_owner(chans, 0, 0, cur) == 0);
            self.current = (self.current + 1) % CH;
            let r = self.sources.0.next();
            proof {
                assert(seq![self.sources.0.remaining(), self.sources.1.remaining(), self.sources.2.remaining(), self.sources.3.remaining(), self.sources.4.remaining(), self.sources.5.remaining(), self.sources.6.remaining(), self.sources.7.remaining(), self.sources.8.remaining(), self.sources.9.remaining(), self.sources.10.remaining()] =~= before.update(0, seq![self.sources.0.remaining(), self.sources.1.remaining(), self.sources.2.remaining(), self.sources.3.remaining(), self.sources.4.remaining(), self.sources.5.remaining(), self.sources.6.remaining(), self.sources.7.remaining(), self.sources.8.remaining(), self.sources.9.remaining(), self.sources.10.remaining()][0]));
                lemma_combined_step(before, seq![self.sources.0.remaining(), self.sources.1.remaining(), self.sources.2.remaining(), self.sources.3.remaining(), self.sources.4.remaining(), self.sources.5.remaining(), self.sources.6.remaining(), self.sources.7.remaining(), self.sources.8.remaining(), self.sources.9.remaining(), self.sources.10.remaining()], chans, cur, CH as int, r);
            }
            return r;
        }
        channel = channel + CH1;
        assert(channel_owner(chans, 0, 0, cur) == channel_owner(chans, 1, channel as int, cur));
        assert(channel + CH2 <= CH);
        if channel <= self.current && self.current < channel + CH2 {
            assert(channel_owner(chans, 0, 0, cur) == 1);
            self.current = (self.current + 1) % CH;
            let r = self.sources.1.next();
            proof {
                assert(seq![self.sources.0.remaining(), self.sources.1.remaining(), self.sources.2.remaining(), self.sources.3.remaining(), self.sources.4.remaining(), self.sources.5.remaining(), self.sources.6.remaining(), self.sources.7.remaining(), self.sources.8.remaining(), self.sources.9.remaining(), self.sources.10.remaining()] =~= before.update(1, seq![self.sources.0.remaining(), self.sources.1.remaining(), self.sources.2.remaining(), self.sources.3.remaining(), self.sources.4.remaining(), self.sources.5.remaining(), self.sources.6.remaining(), self.sources.7.remaining(), self.sources.8.remaining(), self.sources.9.remaining(), self.sources.10.remaining()][1]));
                lemma_combined_step(before, seq![self.sources.0.remaining(), self.sources.1.remaining(), self.sources.2.remaining(), self.sources.3.remaining(), self.sources.4.remaining(), self.sources.5.remaining(), self.sources.6.remaining(), self.sources.7.remaining(), self.sources.8.remaining(), self.sources.9.remaining(), self.sources.10.remaining()], chans, cur, CH as int, r);
            }
            return r;
        }
        channel = channel + CH2;
        assert(channel_owner(chans, 0, 0, cur) == channel_owner(chans, 2, channel as int, cur));
        assert(channel + CH3 <= CH);
        if channel <= self.current && self.current < channel + CH3 {
            assert(channel_owner(chans, 0, 0, cur) == 2);
            self.current = (self.current + 1) % CH;
            let r = self.sources.2.next();
            proof {
                assert(seq![self.sources.0.remaining(), self.sources.1.remaining(), self.sources.2.remaining(), self.sources.3.remaining(), self.sources.4.remaining(), self.sources.5.remaining(), self.sources.6.remaining(), self.sources.7.remaining(), self.sources.8.remaining(), self.sources.9.remaining(), self.sources.10.remaining()] =~= before.update(2, seq![self.sources.0.remaining(), self.sources.1.remaining(), self.sources.2.remaining(), self.sources.3.remaining(), self.sources.4.remaining(), self.sources.5.remaining(), self.sources.6.remaining(), self.sources.7.remaining(), self.sources.8.remaining(), self.sources.9.remaining(), self.sources.10.remaining()][2]));
                lemma_combined_step(before, seq![self.sources.0.remaining(), self.sources.1.remaining(), self.sources.2.remaining(), self.sources.3.remaining(), self.sources.4.remaining(), self.sources.5.remaining(), self.sources.6.remaining(), self.sources.7.remaining(), self.sources.8.remaining(), self.sources.9.remaining(), self.sources.10.remaining()], chans, cur, CH as int, r);
            }
            return r;
        }
        channel = channel + CH3;
        assert(channel_owner(chans, 0, 0, cur) == channel_owner(chans, 3, channel as int, cur));
        assert(channel + CH4 <= CH);
        if channel <= self.current && self.current < channel + CH4 {
            assert(channel_owner(chans, 0, 0, cur) == 3);
            self.current = (self.current + 1) % CH;
            let r = self.sources.3.next();
            proof {
                assert(seq![self.sources.0.remaining(), self.sources.1.remaining(), self.sources.2.remaining(), self.sources.3.remaining(), self.sources.4.remaining(), self.sources.5.remaining(), self.sources.6.remaining(), self.sources.7.remaining(), self.sources.8.remaining(), self.sources.9.remaining(), self.sources.10.remaining()] =~= before.update(3, seq![self.sources.0.remaining(), self.sources.1.remaining(), self.sources.2.remaining(), self.sources.3.remaining(), self.sources.4.remaining(), self.sources.5.remaining(), self.sources.6.remaining(), self.sources.7.remaining(), self.sources.8.remaining(), self.sources.9.remaining(), self.sources.10.remaining()][3]));
                lemma_combined_step(before, seq![self.sources.0.remaining(), self.sources.1.remaining(), self.sources.2.remaining(), self.sources.3.remaining(), self.sources.4.remaining(), self.sources.5.remaining(), self.sources.6.remaining(), self.sources.7.remaining(), self.sources.8.remaining(), self.sources.9.remaining(), self.sources.10.remaining()], chans, cur, CH as int, r);
            }
            return r;
        }
        channel = channel + CH4;
        assert(channel_owner(chans, 0, 0, cur) == channel_owner(chans, 4, channel as int, cur));
        assert(channel + CH5 <= CH);
        if channel <= self.current && self.current < channel + CH5 {
            assert(channel_owner(chans, 0, 0, cur) == 4);
            self.current = (self.current + 1) % CH;
            let r = self.sources.4.next();
            proof {
                assert(seq![self.sources.0.remaining(), self.sources.1.remaining(), self.sources.2.remaining(), self.sources.3.remaining(), self.sources.4.remaining(), self.sources.5.remaining(), self.sources.6.remaining(), self.sources.7.remaining(), self.sources.8.remaining(), self.sources.9.remaining(), self.sources.10.remaining()] =~= before.update(4, seq![self.sources.0.remaining(), self.sources.1.remaining(), self.sources.2.remaining(), self.sources.3.remaining(), self.sources.4.remaining(), self.sources.5.remaining(), self.sources.6.remaining(), self.sources.7.remaining(), self.sources.8.remaining(), self.sources.9.remaining(), self.sources.10.remaining()][4]));
                lemma_combined_step(before, seq![self.sources.0.remaining(), self.sources.1.remaining(), self.sources.2.remaining(), self.sources.3.remaining(), self.sources.4.remaining(), self.sources.5.remaining(), self.sources.6.remaining(), self.sources.7.remaining(), self.sources.8.remaining(), self.sources.9.remaining(), self.sources.10.remaining()], chans, cur, CH as int, r);
            }
            return r;
        }
        channel = channel + CH5;
        assert(channel_owner(chans, 0, 0, cur) == channel_owner(chans, 5, channel as int, cur));
        assert(channel + CH6 <= CH);
        if channel <= self.current && self.current < channel + CH6 {
            assert(channel_owner(chans, 0, 0, cur) == 5);
            self.current = (self.current + 1) % CH;
            let r = self.sources.5.next();
            proof {
                assert(seq![self.sources.0.remaining(), self.sources.1.remaining(), self.sources.2.remaining(), self.sources.3.remaining(), self.sources.4.remaining(), self.sources.5.remaining(), self.sources.6.remaining(), self.sources.7.remaining(), self.sources.8.remaining(), self.sources.9.remaining(), self.sources.10.remaining()] =~= before.update(5, seq![self.sources.0.remaining(), self.sources.1.remaining(), self.sources.2.remaining(), self.sources.3.remaining(), self.sources.4.remaining(), self.sources.5.remaining(), self.sources.6.remaining(), self.sources.7.remaining(), self.sources.8.remaining(), self.sources.9.remaining(), self.sources.10.remaining()][5]));
                lemma_combined_step(before, seq![self.sources.0.remaining(), self.sources.1.remaining(), self.sources.2.remaining(), self.sources.3.remaining(), self.sources.4.remaining(), self.sources.5.remaining(), self.sources.6.remaining(), self.sources.7.remaining(), self.sources.8.remaining(), self.sources.9.remaining(), self.sources.10.remaining()], chans, cur, CH as int, r);
            }
            return r;
        }
        channel = channel + CH6;
        assert(channel_owner(chans, 0, 0, cur) == channel_owner(chans, 6, channel as int, cur));
        assert(channel + CH7 <= CH);
        if channel <= self.current && self.current < channel + CH7 {
            assert(channel_owner(chans, 0, 0, cur) == 6);
            self.current = (self.current + 1) % CH;
            let r = self.sources.6.next();
            proof {
                assert(seq![self.sources.0.remaining(), self.sources.1.remaining(), self.sources.2.remaining(), self.sources.3.remaining(), self.sources.4.remaining(), self.sources.5.remaining(), self.sources.6.remaining(), self.sources.7.remaining(), self.sources.8.remaining(), self.sources.9.remaining(), self.sources.10.remaining()] =~= before.update(6, seq![self.sources.0.remaining(), self.sources.1.remaining(), self.sources.2.remaining(), self.sources.3.remaining(), self.sources.4.remaining(), self.sources.5.remaining(), self.sources.6.remaining(), self.sources.7.remaining(), self.sources.8.remaining(), self.sources.9.remaining(), self.sources.10.remaining()][6]));
                lemma_combined_step(before, seq![self.sources.0.remaining(), self.sources.1.remaining(), self.sources.2.remaining(), self.sources.3.remaining(), self.sources.4.remaining(), self.sources.5.remaining(), self.sources.6.remaining(), self.sources.7.remaining(), self.sources.8.remaining(), self.sources.9.remaining(), self.sources.10.remaining()], chans, cur, CH as int, r);
            }
            return r;
        }
        channel = channel + CH7;
        assert(channel_owner(chans, 0, 0, cur) == channel_owner(chans, 7, channel as int, cur));
        assert(channel + CH8 <= CH);
        if channel <= self.current && self.current < channel + CH8 {
            assert(channel_owner(chans, 0, 0, cur) == 7);
            self.current = (self.current + 1) % CH;
            let r = self.sources.7.next();
            proof {
                assert(seq![self.sources.0.remaining(), self.sources.1.remaining(), self.sources.2.remaining(), self.sources.3.remaining(), self.sources.4.remaining(), self.sources.5.remaining(), self.sources.6.remaining(), self.sources.7.remaining(), self.sources.8.remaining(), self.sources.9.remaining(), self.sources.10.remaining()] =~= before.update(7, seq![self.sources.0.remaining(), self.sources.1.remaining(), self.sources.2.remaining(), self.sources.3.remaining(), self.sources.4.remaining(), self.sources.5.remaining(), self.sources.6.remaining(), self.sources.7.remaining(), self.sources.8.remaining(), self.sources.9.remaining(), self.sources.10.remaining()][7]));
                lemma_combined_step(before, seq![self.sources.0.remaining(), self.sources.1.remaining(), self.sources.2.remaining(), self.sources.3.remaining(), self.sources.4.remaining(), self.sources.5.remaining(), self.sources.6.remaining(), self.sources.7.remaining(), self.sources.8.remaining(), self.sources.9.remaining(), self.sources.10.remaining()], chans, cur, CH as int, r);
            }
            return r;
        }
        channel = channel + CH8;
        assert(channel_owner(chans, 0, 0, cur) == channel_owner(chans, 8, channel as int, cur));
        assert(channel + CH9 <= CH);
        if channel <= self.current && self.current < channel + CH9 {
            assert(channel_owner(chans, 0, 0, cur) == 8);
            self.current = (self.current + 1) % CH;
            let r = self.sources.8.next();
            proof {
                assert(seq![self.sources.0.remaining(), self.sources.1.remaining(), self.sources.2.remaining(), self.sources.3.remaining(), self.sources.4.remaining(), self.sources.5.remaining(), self.sources.6.remaining(), self.sources.7.remaining(), self.sources.8.remaining(), self.sources.9.remaining(), self.sources.10.remaining()] =~= before.update(8, seq![self.sources.0.remaining(), self.sources.1.remaining(), self.sources.2.remaining(), self.sources.3.remaining(), self.sources.4.remaining(), self.sources.5.remaining(), self.sources.6.remaining(), self.sources.7.remaining(), self.sources.8.remaining(), self.sources.9.remaining(), self.sources.10.remaining()][8]));
                lemma_combined_step(before, seq![self.sources.0.remaining(), self.sources.1.remaining(), self.sources.2.remaining(), self.sources.3.remaining(), self.sources.4.remaining(), self.sources.5.remaining(), self.sources.6.remaining(), self.sources.7.remaining(), self.sources.8.remaining(), self.sources.9.remaining(), self.sources.10.remaining()], chans, cur, CH as int, r);
            }
            return r;
        }
        channel = channel + CH9;
        assert(channel_owner(chans, 0, 0, cur) == channel_owner(chans, 9, channel as int, cur));
        assert(channel + CH10 <= CH);
        if channel <= self.current && self.current < channel + CH10 {
            assert(channel_owner(chans, 0, 0, cur) == 9);
            self.current = (self.current + 1) % CH;
            let r = self.sources.9.next();
            proof {
                assert(seq![self.sources.0.remaining(), self.sources.1.remaining(), self.sources.2.remaining(), self.sources.3.remaining(), self.sources.4.remaining(), self.sources.5.remaining(), self.sources.6.remaining(), self.sources.7.remaining(), self.sources.8.remaining(), self.sources.9.remaining(), self.sources.10.remaining()] =~= before.update(9, seq![self.sources.0.remaining(), self.sources.1.remaining(), self.sources.2.remaining(), self.sources.3.remaining(), self.sources.4.remaining(), self.sources.5.remaining(), self.sources.6.remaining(), self.sources.7.remaining(), self.sources.8.remaining(), self.sources.9.remaining(), self.sources.10.remaining()][9]));
                lemma_combined_step(before, seq![self.sources.0.remaining(), self.sources.1.remaining(), self.sources.2.remaining(), self.sources.3.remaining(), self.sources.4.remaining(), self.sources.5.remaining(), self.sources.6.remaining(), self.sources.7.remaining(), self.sources.8.remaining(), self.sources.9.remaining(), self.sources.10.remaining()], chans, cur, CH as int, r);
            }
            return r;
        }
        channel = channel + CH10;
        assert(channel_owner(chans, 0, 0, cur) == channel_owner(chans, 10, channel as int, cur));
        assert(channel + CH11 <= CH);
        if channel <= self.current && self.current < channel + CH11 {
            assert(channel_owner(chans, 0, 0, cur) == 10);
            self.current = (self.current + 1) % CH;
            let r = self.sources.10.next();
            proof {
                assert(seq![self.sources.0.remaining(), self.sources.1.remaining(), self.sources.2.remaining(), self.sources.3.remaining(), self.sources.4.remaining(), self.sources.5.remaining(), self.sources.6.remaining(), self.sources.7.remaining(), self.sources.8.remaining(), self.sources.9.remaining(), self.sources.10.remaining()] =~= before.update(10, seq![self.sources.0.remaining(), self.sources.1.remaining(), self.sources.2.remaining(), self.sources.3.remaining(), self.sources.4.remaining(), self.sources.5.remaining(), self.sources.6.remaining(), self.sources.7.remaining(), self.sources.8.remaining(), self.sources.9.remaining(), self.sources.10.remaining()][10]));
                lemma_combined_step(before, seq![self.sources.0.remaining(), self.sources.1.remaining(), self.sources.2.remaining(), self.sources.3.remaining(), self.sources.4.remaining(), self.sources.5.remaining(), self.sources.6.remaining(), self.sources.7.remaining(), self.sources.8.remaining(), self.sources.9.remaining(), self.sources.10.remaining()], chans, cur, CH as int, r);
            }
            return r;
        }
        None
    }

    fn total_duration_nanos(&self) -> (r: Option<u128>) {
        let ghost ds = seq![self.sources.0.duration(), self.sources.1.duration(), self.sources.2.duration(), self.sources.3.duration(), self.sources.4.duration(), self.sources.5.duration(), self.sources.6.duration(), self.sources.7.duration(), self.sources.8.duration(), self.sources.9.duration(), self.sources.10.duration()];
        let mut acc: Option<u128> = None;
        assert(ds.take(0) =~= Seq::<Option<nat>>::empty());
        let d = self.sources.0.total_duration_nanos();
        acc = max_known_step(acc, d, Ghost(ds.take(0)));
        assert(ds.take(0).push(ds[0]) =~= ds.take(1));
        let d = self.sources.1.total_duration_nanos();
        acc = max_known_step(acc, d, Ghost(ds.take(1)));
        assert(ds.take(1).push(ds[1]) =~= ds.take(2));
        let d = self.sources.2.total_duration_nanos();
        acc = max_known_step(acc, d, Ghost(ds.take(2)));
        assert(ds.take(2).push(ds[2]) =~= ds.take(3));
        let d = self.sources.3.total_duration_nanos();
        acc = max_known_step(acc, d, Ghost(ds.take(3)));
        assert(ds.take(3).push(ds[3]) =~= ds.take(4));
        let d = self.sources.4.total_duration_nanos();
        acc = max_known_step(acc, d, Ghost(ds.take(4)));
        assert(ds.take(4).push(ds[4]) =~= ds.take(5));
        let d = self.sources.5.total_duration_nanos();
        acc = max_known_step(acc, d, Ghost(ds.take(5)));
        assert(ds.take(5).push(ds[5]) =~= ds.take(6));
        let d = self.sources.6.total_duration_nanos();
        acc = max_known_step(acc, d, Ghost(ds.take(6)));
        assert(ds.take(6).push(ds[6]) =~= ds.take(7));
        let d = self.sources.7.total_duration_nanos();
        acc = max_known_step(acc, d, Ghost(ds.take(7)));
        assert(ds.take(7).push(ds[7]) =~= ds.take(8));
        let d = self.sources.8.total_duration_nanos();
        acc = max_known_step(acc, d, Ghost(ds.take(8)));
        assert(ds.take(8).push(ds[8]) =~= ds.take(9));
        let d = self.sources.9.total_duration_nanos();
        acc = max_known_step(acc, d, Ghost(ds.take(9)));
        assert(ds.take(9).push(ds[9]) =~= ds.take(10));
        let d = self.sources.10.total_duration_nanos();
        acc = max_known_step(acc, d, Ghost(ds.take(10)));
        assert(ds.take(10).push(ds[10]) =~= ds.take(11));
        assert(ds.take(11) =~= ds);
        acc
    }
}

/// Combines the channels of a tuple of 11 sources into one source; the
/// output channel count must be the sum of the inputs' channel counts.
pub trait CH11T<const SR: u32, const CH1: u16, const CH2: u16, const CH3: u16, const CH4: u16, const CH5: u16, const CH6: u16, const CH7: u16, const CH8: u16, const CH9: u16, const CH10: u16, const CH11: u16, T, S1, S2, S3, S4, S5, S6, S7, S8, S9, S10, S11> {
    fn combine_channels<const CH: u16>(self) -> (r: CombinedChannels11Tuple<SR, CH, CH1, CH2, CH3, CH4, CH5, CH6, CH7, CH8, CH9, CH10, CH11, S1, S2, S3, S4, S5, S6, S7, S8, S9, S10, S11>)
        requires
            CH > 0,
            CH1 + CH2 + CH3 + CH4 + CH5 + CH6 + CH7 + CH8 + CH9 + CH10 + CH11 == CH,
    ;
}

impl<
    const SR: u32,
    const CH1: u16, const CH2: u16, const CH3: u16, const CH4: u16, const CH5: u16, const CH6: u16, const CH7: u16, const CH8: u16, const CH9: u16, const CH10: u16, const CH11: u16,
    T,
    S1: ConstSource<SR, CH1, T>,
    S2: ConstSource<SR, CH2, T>,
    S3: ConstSource<SR, CH3, T>,
    S4: ConstSource<SR, CH4, T>,
    S5: ConstSource<SR, CH5, T>,
    S6: ConstSource<SR, CH6, T>,
    S7: ConstSource<SR, CH7, T>,
    S8: ConstSource<SR, CH8, T>,
    S9: ConstSource<SR, CH9, T>,
    S10: ConstSource<SR, CH10, T>,
    S11: ConstSource<SR, CH11, T>,
> CH11T<SR, CH1, CH2, CH3, CH4, CH5, CH6, CH7, CH8, CH9, CH10, CH11, T, S1, S2, S3, S4, S5, S6, S7, S8, S9, S10, S11> for (S1, S2, S3, S4, S5, S6, S7, S8, S9, S10, S11) {
    fn combine_channels<const CH: u16>(self) -> (r: CombinedChannels11Tuple<SR, CH, CH1, CH2, CH3, CH4, CH5, CH6, CH7, CH8, CH9, CH10, CH11, S1, S2, S3, S4, S5, S6, S7, S8, S9, S10, S11>)
        ensures
            self.0.wf() && self.1.wf() && self.2.wf() && self.3.wf() && self.4.wf() && self.5.wf() && self.6.wf() && self.7.wf() && self.8.wf() && self.9.wf() && self.10.wf() ==> r.wf(),
            r.remaining() == combined_output(seq![self.0.remaining(), self.1.remaining(), self.2.remaining(), self.3.remaining(), self.4.remaining(), self.5.remaining(), self.6.remaining(), self.7.remaining(), self.8.remaining(), self.9.remaining(), self.10.remaining()], seq![CH1 as nat, CH2 as nat, CH3 as nat, CH4 as nat, CH5 as nat, CH6 as nat, CH7 as nat, CH8 as nat, CH9 as nat, CH10 as nat, CH11 as nat], 0, CH as int),
            r.duration() == max_known(seq![self.0.duration(), self.1.duration(), self.2.duration(), self.3.duration(), self.4.duration(), self.5.duration(), self.6.duration(), self.7.duration(), self.8.duration(), self.9.duration(), self.10.duration()]),
    {
        CombinedChannels11Tuple { sources: self, current: 0 }
    }
}

/// Interleaves the channels of a tuple of 12 sources, with `CH1`, `CH2`, ...
/// channels each, into one source with `CH` channels.
pub struct CombinedChannels12Tuple<const SR: u32, const CH: u16, const CH1: u16, const CH2: u16, const CH3: u16, const CH4: u16, const CH5: u16, const CH6: u16, const CH7: u16, const CH8: u16, const CH9: u16, const CH10: u16, const CH11: u16, const CH12: u16, S1, S2, S3, S4, S5, S6, S7, S8, S9, S10, S11, S12> {
    sources: (S1, S2, S3, S4, S5, S6, S7, S8, S9, S10, S11, S12),
    current: u16,
}

impl<
    const SR: u32,
    const CH: u16,
    const CH1: u16, const CH2: u16, const CH3: u16, const CH4: u16, const CH5: u16, const CH6: u16, const CH7: u16, const CH8: u16, const CH9: u16, const CH10: u16, const CH11: u16, const CH12: u16,
    T,
    S1: ConstSource<SR, CH1, T>,
    S2: ConstSource<SR, CH2, T>,
    S3: ConstSource<SR, CH3, T>,
    S4: ConstSource<SR, CH4, T>,
    S5: ConstSource<SR, CH5, T>,
    S6: ConstSource<SR, CH6, T>,
    S7: ConstSource<SR, CH7, T>,
    S8: ConstSource<SR, CH8, T>,
    S9: ConstSource<SR, CH9, T>,
    S10: ConstSource<SR, CH10, T>,
    S11: ConstSource<SR, CH11, T>,
    S12: ConstSource<SR, CH12, T>,
> ConstSource<SR, CH, T> for CombinedChannels12Tuple<SR, CH, CH1, CH2, CH3, CH4, CH5, CH6, CH7, CH8, CH9, CH10, CH11, CH12, S1, S2, S3, S4, S5, S6, S7, S8, S9, S10, S11, S12> {
    closed spec fn wf(&self) -> bool {
        &&& self.sources.0.wf()
        &&& self.sources.1.wf()
        &&& self.sources.2.wf()
        &&& self.sources.3.wf()
        &&& self.sources.4.wf()
        &&& self.sources.5.wf()
        &&& self.sources.6.wf()
        &&& self.sources.7.wf()
        &&& self.sources.8.wf()
        &&& self.sources.9.wf()
        &&& self.sources.10.wf()
        &&& self.sources.11.wf()
        &&& CH > 0
        &&& CH1 + CH2 + CH3 + CH4 + CH5 + CH6 + CH7 + CH8 + CH9 + CH10 + CH11 + CH12 == CH
        &&& self.current < CH
    }

    closed spec fn remaining(&self) -> Seq<T> {
        combined_output(seq![self.sources.0.remaining(), self.sources.1.remaining(), self.sources.2.remaining(), self.sources.3.remaining(), self.sources.4.remaining(), self.sources.5.remaining(), self.sources.6.remaining(), self.sources.7.remaining(), self.sources.8.remaining(), self.sources.9.remaining(), self.sources.10.remaining(), self.sources.11.remaining()], seq![CH1 as nat, CH2 as nat, CH3 as nat, CH4 as nat, CH5 as nat, CH6 as nat, CH7 as nat, CH8 as nat, CH9 as nat, CH10 as nat, CH11 as nat, CH12 as nat], self.current as int, CH as int)
    }

    closed spec fn duration(&self) -> Option<nat> {
        max_known(seq![self.sources.0.duration(), self.sources.1.duration(), self.sources.2.duration(), self.sources.3.duration(), self.sources.4.duration(), self.sources.5.duration(), self.sources.6.duration(), self.sources.7.duration(), self.sources.8.duration(), self.sources.9.duration(), self.sources.10.duration(), self.sources.11.duration()])
    }

    fn next(&mut self) -> (r: Option<T>) {
        let ghost before = seq![self.sources.0.remaining(), self.sources.1.remaining(), self.sources.2.remaining(), self.sources.3.remaining(), self.sources.4.remaining(), self.sources.5.remaining(), self.sources.6.remaining(), self.sources.7.remaining(), self.sources.8.remaining(), self.sources.9.remaining(), self.sources.10.remaining(), self.sources.11.remaining()];
        let ghost chans = seq![CH1 as nat, CH2 as nat, CH3 as nat, CH4 as nat, CH5 as nat, CH6 as nat, CH7 as nat, CH8 as nat, CH9 as nat, CH10 as nat, CH11 as nat, CH12 as nat];
        let ghost cur = self.current as int;
        let mut channel: u16 = 0;
        assert(channel + CH1 <= CH);
        if channel <= self.current && self.current < channel + CH1 {
            assert(channel_owner(chans, 0, 0, cur) == 0);
            self.current = (self.current + 1) % CH;
            let r = self.sources.0.next();
            proof {
                assert(seq![self.sources.0.remaining(), self.sources.1.remaining(), self.sources.2.remaining(), self.sources.3.remaining(), self.sources.4.remaining(), self.sources.5.remaining(), self.sources.6.remaining(), self.sources.7.remaining(), self.sources.8.remaining(), self.sources.9.remaining(), self.sources.10.remaining(), self.sources.11.remaining()] =~= before.update(0, seq![self.sources.0.remaining(), self.sources.1.remaining(), self.sources.2.remaining(), self.sources.3.remaining(), self.sources.4.remaining(), self.sources.5.remaining(), self.sources.6.remaining(), self.sources.7.remaining(), self.sources.8.remaining(), self.sources.9.remaining(), self.sources.10.remaining(), self.sources.11.remaining()][0]));
                lemma_combined_step(before, seq![self.sources.0.remaining(), self.sources.1.remaining(), self.sources.2.remaining(), self.sources.3.remaining(), self.sources.4.remaining(), self.sources.5.remaining(), self.sources.6.remaining(), self.sources.7.remaining(), self.sources.8.remaining(), self.sources.9.remaining(), self.sources.10.remaining(), self.sources.11.remaining()], chans, cur, CH as int, r);
            }
            return r;
        }
        channel = channel + CH1;
        assert(channel_owner(chans, 0, 0, cur) == channel_owner(chans, 1, channel as int, cur));
        assert(channel + CH2 <= CH);
        if channel <= self.current && self.current < channel + CH2 {
            assert(channel_owner(chans, 0, 0, cur) == 1);
            self.current = (self.current + 1) % CH;
            let r = self.sources.1.next();
            proof {
                assert(seq![self.sources.0.remaining(), self.sources.1.remaining(), self.sources.2.remaining(), self.sources.3.remaining(), self.sources.4.remaining(), self.sources.5.remaining(), self.sources.6.remaining(), self.sources.7.remaining(), self.sources.8.remaining(), self.sources.9.remaining(), self.sources.10.remaining(), self.sources.11.remaining()] =~= before.update(1, seq![self.sources.0.remaining(), self.sources.1.remaining(), self.sources.2.remaining(), self.sources.3.remaining(), self.sources.4.remaining(), self.sources.5.remaining(), self.sources.6.remaining(), self.sources.7.remaining(), self.sources.8.remaining(), self.sources.9.remaining(), self.sources.10.remaining(), self.sources.11.remaining()][1]));
                lemma_combined_step(before, seq![self.sources.0.remaining(), self.sources.1.remaining(), self.sources.2.remaining(), self.sources.3.remaining(), self.sources.4.remaining(), self.sources.5.remaining(), self.sources.6.remaining(), self.sources.7.remaining(), self.sources.8.remaining(), self.sources.9.remaining(), self.sources.10.remaining(), self.sources.11.remaining()], chans, cur, CH as int, r);
            }
            return r;
        }
        channel = channel + CH2;
        assert(channel_owner(chans, 0, 0, cur) == channel_owner(chans, 2, channel as int, cur));
        assert(channel + CH3 <= CH);
        if channel <= self.current && self.current < channel + CH3 {
            assert(channel_owner(chans, 0, 0, cur) == 2);
            self.current = (self.current + 1) % CH;
            let r = self.sources.2.next();
            proof {
                assert(seq![self.sources.0.remaining(), self.sources.1.remaining(), self.sources.2.remaining(), self.sources.3.remaining(), self.sources.4.remaining(), self.sources.5.remaining(), self.sources.6.remaining(), self.sources.7.remaining(), self.sources.8.remaining(), self.sources.9.remaining(), self.sources.10.remaining(), self.sources.11.remaining()] =~= before.update(2, seq![self.sources.0.remaining(), self.sources.1.remaining(), self.sources.2.remaining(), self.sources.3.remaining(), self.sources.4.remaining(), self.sources.5.remaining(), self.sources.6.remaining(), self.sources.7.remaining(), self.sources.8.remaining(), self.sources.9.remaining(), self.sources.10.remaining(), self.sources.11.remaining()][2]));
                lemma_combined_step(before, seq![self.sources.0.remaining(), self.sources.1.remaining(), self.sources.2.remaining(), self.sources.3.remaining(), self.sources.4.remaining(), self.sources.5.remaining(), self.sources.6.remaining(), self.sources.7.remaining(), self.sources.8.remaining(), self.sources.9.remaining(), self.sources.10.remaining(), self.sources.11.remaining()], chans, cur, CH as int, r);
            }
            return r;
        }
        channel = channel + CH3;
        assert(channel_owner(chans, 0, 0, cur) == channel_owner(chans, 3, channel as int, cur));
        assert(channel + CH4 <= CH);
        if channel <= self.current && self.current < channel + CH4 {
            assert(channel_owner(chans, 0, 0, cur) == 3);
            self.current = (self.current + 1) % CH;
            let r = self.sources.3.next();
            proof {
                assert(seq![self.sources.0.remaining(), self.sources.1.remaining(), self.sources.2.remaining(), self.sources.3.remaining(), self.sources.4.remaining(), self.sources.5.remaining(), self.sources.6.remaining(), self.sources.7.remaining(), self.sources.8.remaining(), self.sources.9.remaining(), self.sources.10.remaining(), self.sources.11.remaining()] =~= before.update(3, seq![self.sources.0.remaining(), self.sources.1.remaining(), self.sources.2.remaining(), self.sources.3.remaining(), self.sources.4.remaining(), self.sources.5.remaining(), self.sources.6.remaining(), self.sources.7.remaining(), self.sources.8.remaining(), self.sources.9.remaining(), self.sources.10.remaining(), self.sources.11.remaining()][3]));
                lemma_combined_step(before, seq![self.sources.0.remaining(), self.sources.1.remaining(), self.sources.2.remaining(), self.sources.3.remaining(), self.sources.4.remaining(), self.sources.5.remaining(), self.sources.6.remaining(), self.sources.7.remaining(), self.sources.8.remaining(), self.sources.9.remaining(), self.sources.10.remaining(), self.sources.11.remaining()], chans, cur, CH as int, r);
            }
            return r;
        }
        channel = channel + CH4;
        assert(channel_owner(chans, 0, 0, cur) == channel_owner(chans, 4, channel as int, cur));
        assert(channel + CH5 <= CH);
        if channel <= self.current && self.current < channel + CH5 {
            assert(channel_owner(chans, 0, 0, cur) == 4);
            self.current = (self.current + 1) % CH;
            let r = self.sources.4.next();
            proof {
                assert(seq![self.sources.0.remaining(), self.sources.1.remaining(), self.sources.2.remaining(), self.sources.3.remaining(), self.sources.4.remaining(), self.sources.5.remaining(), self.sources.6.remaining(), self.sources.7.remaining(), self.sources.8.remaining(), self.sources.9.remaining(), self.sources.10.remaining(), self.sources.11.remaining()] =~= before.update(4, seq![self.sources.0.remaining(), self.sources.1.remaining(), self.sources.2.remaining(), self.sources.3.remaining(), self.sources.4.remaining(), self.sources.5.remaining(), self.sources.6.remaining(), self.sources.7.remaining(), self.sources.8.remaining(), self.sources.9.remaining(), self.sources.10.remaining(), self.sources.11.remaining()][4]));
                lemma_combined_step(before, seq![self.sources.0.remaining(), self.sources.1.remaining(), self.sources.2.remaining(), self.sources.3.remaining(), self.sources.4.remaining(), self.sources.5.remaining(), self.sources.6.remaining(), self.sources.7.remaining(), self.sources.8.remaining(), self.sources.9.remaining(), self.sources.10.remaining(), self.sources.11.remaining()], chans, cur, CH as int, r);
            }
            return r;
        }
        channel = channel + CH5;
        assert(channel_owner(chans, 0, 0, cur) == channel_owner(chans, 5, channel as int, cur));
        assert(channel + CH6 <= CH);
        if channel <= self.current && self.current < channel + CH6 {
            assert(channel_owner(chans, 0, 0, cur) == 5);
            self.current = (self.current + 1) % CH;
            let r = self.sources.5.next();
            proof {
                assert(seq![self.sources.0.remaining(), self.sources.1.remaining(), self.sources.2.remaining(), self.sources.3.remaining(), self.sources.4.remaining(), self.sources.5.remaining(), self.sources.6.remaining(), self.sources.7.remaining(), self.sources.8.remaining(), self.sources.9.remaining(), self.sources.10.remaining(), self.sources.11.remaining()] =~= before.update(5, seq![self.sources.0.remaining(), self.sources.1.remaining(), self.sources.2.remaining(), self.sources.3.remaining(), self.sources.4.remaining(), self.sources.5.remaining(), self.sources.6.remaining(), self.sources.7.remaining(), self.sources.8.remaining(), self.sources.9.remaining(), self.sources.10.remaining(), self.sources.11.remaining()][5]));
                lemma_combined_step(before, seq![self.sources.0.remaining(), self.sources.1.remaining(), self.sources.2.remaining(), self.sources.3.remaining(), self.sources.4.remaining(), self.sources.5.remaining(), self.sources.6.remaining(), self.sources.7.remaining(), self.sources.8.remaining(), self.sources.9.remaining(), self.sources.10.remaining(), self.sources.11.remaining()], chans, cur, CH as int, r);
            }
            return r;
        }
        channel = channel + CH6;
        assert(channel_owner(chans, 0, 0, cur) == channel_owner(chans, 6, channel as int, cur));
        assert(channel + CH7 <= CH);
        if channel <= self.current && self.current < channel + CH7 {
            assert(channel_owner(chans, 0, 0, cur) == 6);
            self.current = (self.current + 1) % CH;
            let r = self.sources.6.next();
            proof {
                assert(seq![self.sources.0.remaining(), self.sources.1.remaining(), self.sources.2.remaining(), self.sources.3.remaining(), self.sources.4.remaining(), self.sources.5.remaining(), self.sources.6.remaining(), self.sources.7.remaining(), self.sources.8.remaining(), self.sources.9.remaining(), self.sources.10.remaining(), self.sources.11.remaining()] =~= before.update(6, seq![self.sources.0.remaining(), self.sources.1.remaining(), self.sources.2.remaining(), self.sources.3.remaining(), self.sources.4.remaining(), self.sources.5.remaining(), self.sources.6.remaining(), self.sources.7.remaining(), self.sources.8.remaining(), self.sources.9.remaining(), self.sources.10.remaining(), self.sources.11.remaining()][6]));
                lemma_combined_step(before, seq![self.sources.0.remaining(), self.sources.1.remaining(), self.sources.2.remaining(), self.sources.3.remaining(), self.sources.4.remaining(), self.sources.5.remaining(), self.sources.6.remaining(), self.sources.7.remaining(), self.sources.8.remaining(), self.sources.9.remaining(), self.sources.10.remaining(), self.sources.11.remaining()], chans, cur, CH as int, r);
            }
            return r;
        }
        channel = channel + CH7;
        assert(channel_owner(chans, 0, 0, cur) == channel_owner(chans, 7, channel as int, cur));
        assert(channel + CH8 <= CH);
        if channel <= self.current && self.current < channel + CH8 {
            assert(channel_owner(chans, 0, 0, cur) == 7);
            self.current = (self.current + 1) % CH;
            let r = self.sources.7.next();
            proof {
                assert(seq![self.sources.0.remaining(), self.sources.1.remaining(), self.sources.2.remaining(), self.sources.3.remaining(), self.sources.4.remaining(), self.sources.5.remaining(), self.sources.6.remaining(), self.sources.7.remaining(), self.sources.8.remaining(), self.sources.9.remaining(), self.sources.10.remaining(), self.sources.11.remaining()] =~= before.update(7, seq![self.sources.0.remaining(), self.sources.1.remaining(), self.sources.2.remaining(), self.sources.3.remaining(), self.sources.4.remaining(), self.sources.5.remaining(), self.sources.6.remaining(), self.sources.7.remaining(), self.sources.8.remaining(), self.sources.9.remaining(), self.sources.10.remaining(), self.sources.11.remaining()][7]));
                lemma_combined_step(before, seq![self.sources.0.remaining(), self.sources.1.remaining(), self.sources.2.remaining(), self.sources.3.remaining(), self.sources.4.remaining(), self.sources.5.remaining(), self.sources.6.remaining(), self.sources.7.remaining(), self.sources.8.remaining(), self.sources.9.remaining(), self.sources.10.remaining(), self.sources.11.remaining()], chans, cur, CH as int, r);
            }
            return r;
        }
        channel = channel + CH8;
        assert(channel_owner(chans, 0, 0, cur) == channel_owner(chans, 8, channel as int, cur));
        assert(channel + CH9 <= CH);
        if channel <= self.current && self.current < channel + CH9 {
            assert(channel_owner(chans, 0, 0, cur) == 8);
            self.current = (self.current + 1) % CH;
            let r = self.sources.8.next();
            proof {
                assert(seq![self.sources.0.remaining(), self.sources.1.remaining(), self.sources.2.remaining(), self.sources.3.remaining(), self.sources.4.remaining(), self.sources.5.remaining(), self.sources.6.remaining(), self.sources.7.remaining(), self.sources.8.remaining(), self.sources.9.remaining(), self.sources.10.remaining(), self.sources.11.remaining()] =~= before.update(8, seq![self.sources.0.remaining(), self.sources.1.remaining(), self.sources.2.remaining(), self.sources.3.remaining(), self.sources.4.remaining(), self.sources.5.remaining(), self.sources.6.remaining(), self.sources.7.remaining(), self.sources.8.remaining(), self.sources.9.remaining(), self.sources.10.remaining(), self.sources.11.remaining()][8]));
                lemma_combined_step(before, seq![self.sources.0.remaining(), self.sources.1.remaining(), self.sources.2.remaining(), self.sources.3.remaining(), self.sources.4.remaining(), self.sources.5.remaining(), self.sources.6.remaining(), self.sources.7.remaining(), self.sources.8.remaining(), self.sources.9.remaining(), self.sources.10.remaining(), self.sources.11.remaining()], chans, cur, CH as int, r);
            }
            return r;
        }
        channel = channel + CH9;
        assert(channel_owner(chans, 0, 0, cur) == channel_owner(chans, 9, channel as int, cur));
        assert(channel + CH10 <= CH);
        if channel <= self.current && self.current < channel + CH10 {
            assert(channel_owner(chans, 0, 0, cur) == 9);
            self.current = (self.current + 1) % CH;
            let r = self.sources.9.next();
            proof {
                assert(seq![self.sources.0.remaining(), self.sources.1.remaining(), self.sources.2.remaining(), self.sources.3.remaining(), self.sources.4.remaining(), self.sources.5.remaining(), self.sources.6.remaining(), self.sources.7.remaining(), self.sources.8.remaining(), self.sources.9.remaining(), self.sources.10.remaining(), self.sources.11.remaining()] =~= before.update(9, seq![self.sources.0.remaining(), self.sources.1.remaining(), self.sources.2.remaining(), self.sources.3.remaining(), self.sources.4.remaining(), self.sources.5.remaining(), self.sources.6.remaining(), self.sources.7.remaining(), self.sources.8.remaining(), self.sources.9.remaining(), self.sources.10.remaining(), self.sources.11.remaining()][9]));
                lemma_combined_step(before, seq![self.sources.0.remaining(), self.sources.1.remaining(), self.sources.2.remaining(), self.sources.3.remaining(), self.sources.4.remaining(), self.sources.5.remaining(), self.sources.6.remaining(), self.sources.7.remaining(), self.sources.8.remaining(), self.sources.9.remaining(), self.sources.10.remaining(), self.sources.11.remaining()], chans, cur, CH as int, r);
            }
            return r;
        }
        channel = channel + CH10;
        assert(channel_owner(chans, 0, 0, cur) == channel_owner(chans, 10, channel as int, cur));
        assert(channel + CH11 <= CH);
        if channel <= self.current && self.current < channel + CH11 {
            assert(channel_owner(chans, 0, 0, cur) == 10);
            self.current = (self.current + 1) % CH;
            let r = self.sources.10.next();
            proof {
                assert(seq![self.sources.0.remaining(), self.sources.1.remaining(), self.sources.2.remaining(), self.sources.3.remaining(), self.sources.4.remaining(), self.sources.5.remaining(), self.sources.6.remaining(), self.sources.7.remaining(), self.sources.8.remaining(), self.sources.9.remaining(), self.sources.10.remaining(), self.sources.11.remaining()] =~= before.update(10, seq![self.sources.0.remaining(), self.sources.1.remaining(), self.sources.2.remaining(), self.sources.3.remaining(), self.sources.4.remaining(), self.sources.5.remaining(), self.sources.6.remaining(), self.sources.7.remaining(), self.sources.8.remaining(), self.sources.9.remaining(), self.sources.10.remaining(), self.sources.11.remaining()][10]));
                lemma_combined_step(before, seq![self.sources.0.remaining(), self.sources.1.remaining(), self.sources.2.remaining(), self.sources.3.remaining(), self.sources.4.remaining(), self.sources.5.remaining(), self.sources.6.remaining(), self.sources.7.remaining(), self.sources.8.remaining(), self.sources.9.remaining(), self.sources.10.remaining(), self.sources.11.remaining()], chans, cur, CH as int, r);
            }
            return r;
        }
        channel = channel + CH11;
        assert(channel_owner(chans, 0, 0, cur) == channel_owner(chans, 11, channel as int, cur));
        assert(channel + CH12 <= CH);
        if channel <= self.current && self.current < channel + CH12 {
            assert(channel_owner(chans, 0, 0, cur) == 11);
            self.current = (self.current + 1) % CH;
            let r = self.sources.11.next();
            proof {
                assert(seq![self.sources.0.remaining(), self.sources.1.remaining(), self.sources.2.remaining(), self.sources.3.remaining(), self.sources.4.remaining(), self.sources.5.remaining(), self.sources.6.remaining(), self.sources.7.remaining(), self.sources.8.remaining(), self.sources.9.remaining(), self.sources.10.remaining(), self.sources.11.remaining()] =~= before.update(11, seq![self.sources.0.remaining(), self.sources.1.remaining(), self.sources.2.remaining(), self.sources.3.remaining(), self.sources.4.remaining(), self.sources.5.remaining(), self.sources.6.remaining(), self.sources.7.remaining(), self.sources.8.remaining(), self.sources.9.remaining(), self.sources.10.remaining(), self.sources.11.remaining()][11]));
                lemma_combined_step(before, seq![self.sources.0.remaining(), self.sources.1.remaining(), self.sources.2.remaining(), self.sources.3.remaining(), self.sources.4.remaining(), self.sources.5.remaining(), self.sources.6.remaining(), self.sources.7.remaining(), self.sources.8.remaining(), self.sources.9.remaining(), self.sources.10.remaining(), self.sources.11.remaining()], chans, cur, CH as int, r);
            }
            return r;
        }
        None
    }

    fn total_duration_nanos(&self) -> (r: Option<u128>) {
        let ghost ds = seq![self.sources.0.duration(), self.sources.1.duration(), self.sources.2.duration(), self.sources.3.duration(), self.sources.4.duration(), self.sources.5.duration(), self.sources.6.duration(), self.sources.7.duration(), self.sources.8.duration(), self.sources.9.duration(), self.sources.10.duration(), self.sources.11.duration()];
        let mut acc: Option<u128> = None;
        assert(ds.take(0) =~= Seq::<Option<nat>>::empty());
        let d = self.sources.0.total_duration_nanos();
        acc = max_known_step(acc, d, Ghost(ds.take(0)));
        assert(ds.take(0).push(ds[0]) =~= ds.take(1));
        let d = self.sources.1.total_duration_nanos();
        acc = max_known_step(acc, d, Ghost(ds.take(1)));
        assert(ds.take(1).push(ds[1]) =~= ds.take(2));
        let d = self.sources.2.total_duration_nanos();
        acc = max_known_step(acc, d, Ghost(ds.take(2)));
        assert(ds.take(2).push(ds[2]) =~= ds.take(3));
        let d = self.sources.3.total_duration_nanos();
        acc = max_known_step(acc, d, Ghost(ds.take(3)));
        assert(ds.take(3).push(ds[3]) =~= ds.take(4));
        let d = self.sources.4.total_duration_nanos();
        acc = max_known_step(acc, d, Ghost(ds.take(4)));
        assert(ds.take(4).push(ds[4]) =~= ds.take(5));
        let d = self.sources.5.total_duration_nanos();
        acc = max_known_step(acc, d, Ghost(ds.take(5)));
        assert(ds.take(5).push(ds[5]) =~= ds.take(6));
        let d = self.sources.6.total_duration_nanos();
        acc = max_known_step(acc, d, Ghost(ds.take(6)));
        assert(ds.take(6).push(ds[6]) =~= ds.take(7));
        let d = self.sources.7.total_duration_nanos();
        acc = max_known_step(acc, d, Ghost(ds.take(7)));
        assert(ds.take(7).push(ds[7]) =~= ds.take(8));
        let d = self.sources.8.total_duration_nanos();
        acc = max_known_step(acc, d, Ghost(ds.take(8)));
        assert(ds.take(8).push(ds[8]) =~= ds.take(9));
        let d = self.sources.9.total_duration_nanos();
        acc = max_known_step(acc, d, Ghost(ds.take(9)));
        assert(ds.take(9).push(ds[9]) =~= ds.take(10));
        let d = self.sources.10.total_duration_nanos();
        acc = max_known_step(acc, d, Ghost(ds.take(10)));
        assert(ds.take(10).push(ds[10]) =~= ds.take(11));
        let d = self.sources.11.total_duration_nanos();
        acc = max_known_step(acc, d, Ghost(ds.take(11)));
        assert(ds.take(11).push(ds[11]) =~= ds.take(12));
        assert(ds.take(12) =~= ds);
        acc
    }
}

/// Combines the channels of a tuple of 12 sources into one source; the
/// output channel count must be the sum of the inputs' channel counts.
pub trait CH12T<const SR: u32, const CH1: u16, const CH2: u16, const CH3: u16, const CH4: u16, const CH5: u16, const CH6: u16, const CH7: u16, const CH8: u16, const CH9: u16, const CH10: u16, const CH11: u16, const CH12: u16, T, S1, S2, S3, S4, S5, S6, S7, S8, S9, S10, S11, S12> {
    fn combine_channels<const CH: u16>(self) -> (r: CombinedChannels12Tuple<SR, CH, CH1, CH2, CH3, CH4, CH5, CH6, CH7, CH8, CH9, CH10, CH11, CH12, S1, S2, S3, S4, S5, S6, S7, S8, S9, S10, S11, S12>)
        requires
            CH > 0,
            CH1 + CH2 + CH3 + CH4 + CH5 + CH6 + CH7 + CH8 + CH9 + CH10 + CH11 + CH12 == CH,
    ;
}

impl<
    const SR: u32,
    const CH1: u16, const CH2: u16, const CH3: u16, const CH4: u16, const CH5: u16, const CH6: u16, const CH7: u16, const CH8: u16, const CH9: u16, const CH10: u16, const CH11: u16, const CH12: u16,
    T,
    S1: ConstSource<SR, CH1, T>,
    S2: ConstSource<SR, CH2, T>,
    S3: ConstSource<SR, CH3, T>,
    S4: ConstSource<SR, CH4, T>,
    S5: ConstSource<SR, CH5, T>,
    S6: ConstSource<SR, CH6, T>,
    S7: ConstSource<SR, CH7, T>,
    S8: ConstSource<SR, CH8, T>,
    S9: ConstSource<SR, CH9, T>,
    S10: ConstSource<SR, CH10, T>,
    S11: ConstSource<SR, CH11, T>,
    S12: ConstSource<SR, CH12, T>,
> CH12T<SR, CH1, CH2, CH3, CH4, CH5, CH6, CH7, CH8, CH9, CH10, CH11, CH12, T, S1, S2, S3, S4, S5, S6, S7, S8, S9, S10, S11, S12> for (S1, S2, S3, S4, S5, S6, S7, S8, S9, S10, S11, S12) {
    fn combine_channels<const CH: u16>(self) -> (r: CombinedChannels12Tuple<SR, CH, CH1, CH2, CH3, CH4, CH5, CH6, CH7, CH8, CH9, CH10, CH11, CH12, S1, S2, S3, S4, S5, S6, S7, S8, S9, S10, S11, S12>)
        ensures
            self.0.wf() && self.1.wf() && self.2.wf() && self.3.wf() && self.4.wf() && self.5.wf() && self.6.wf() && self.7.wf() && self.8.wf() && self.9.wf() && self.10.wf() && self.11.wf() ==> r.wf(),
            r.remaining() == combined_output(seq![self.0.remaining(), self.1.remaining(), self.2.remaining(), self.3.remaining(), self.4.remaining(), self.5.remaining(), self.6.remaining(), self.7.remaining(), self.8.remaining(), self.9.remaining(), self.10.remaining(), self.11.remaining()], seq![CH1 as nat, CH2 as nat, CH3 as nat, CH4 as nat, CH5 as nat, CH6 as nat, CH7 as nat, CH8 as nat, CH9 as nat, CH10 as nat, CH11 as nat, CH12 as nat], 0, CH as int),
            r.duration() == max_known(seq![self.0.duration(), self.1.duration(), self.2.duration(), self.3.duration(), self.4.duration(), self.5.duration(), self.6.duration(), self.7.duration(), self.8.duration(), self.9.duration(), self.10.duration(), self.11.duration()]),
    {
        CombinedChannels12Tuple { sources: self, current: 0 }
    }
}

} // verus!
