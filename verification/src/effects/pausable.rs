use std::time::Duration;
use vstd::prelude::*;

use crate::common::{ChannelCount, SampleRate};
use crate::const_source::pops;
use crate::duration::{duration_of, fits_duration, opt_nat};
use crate::fixed_source::FixedSource;

verus! {

/// Whether a source is paused; a pause is kept frame aligned with the help
/// of an offset into the current frame.
#[derive(Debug, Clone, Copy, PartialEq, Eq, Structural)]
pub enum Paused {
    /// Paused: silence is played.
    Yes { frame_offset: u16 },
    /// Unpaused while paused: one more sample of silence is played.
    Ending { frame_offset: u16 },
    /// Playing.
    No,
}

/// The state after asking for `paused` in state `state`.
pub open spec fn paused_after(state: Paused, paused: bool) -> Paused {
    match state {
        Paused::Yes { frame_offset } => if paused {
            state
        } else {
            Paused::Ending { frame_offset }
        },
        Paused::Ending { frame_offset } => if paused {
            Paused::Yes { frame_offset }
        } else {
            state
        },
        Paused::No => if paused {
            Paused::Yes { frame_offset: 0 }
        } else {
            state
        },
    }
}

/// The state after one sample was played in state `state` with `channels`
/// channels.
pub open spec fn pause_step(state: Paused, channels: nat) -> Paused {
    match state {
        Paused::Yes { frame_offset } => Paused::Yes {
            frame_offset: ((frame_offset + 1) % (channels as int)) as u16,
        },
        Paused::Ending { .. } => Paused::No,
        Paused::No => Paused::No,
    }
}

/// Asking twice in a row for the same thing is asking once.
pub proof fn lemma_set_paused_idempotent(state: Paused, paused: bool)
    ensures
        paused_after(paused_after(state, paused), paused) == paused_after(state, paused),
{
}

/// A source asked to play is playing again after at most one more sample,
/// and one asked to pause stays paused, sample after sample, until asked
/// otherwise.
pub proof fn lemma_pause_and_resume(state: Paused, channels: nat)
    requires
        channels > 0,
    ensures
        pause_step(paused_after(state, false), channels) is No,
        pause_step(paused_after(state, true), channels) is Yes,
        paused_after(state, true) is Yes,
{
}

/// Wraps a source so that it can be paused: while paused it plays silence
/// and leaves the wrapped source where it is.
pub struct Pausable<S, T> {
    inner: S,
    state: Paused,
    silence: T,
}

impl<S, T> Pausable<S, T> {
    /// The wrapped source.
    pub closed spec fn source(&self) -> S {
        self.inner
    }

    /// Whether, and how, the source is paused.
    pub closed spec fn state(&self) -> Paused {
        self.state
    }

    /// The sample played while paused.
    pub closed spec fn silence(&self) -> T {
        self.silence
    }

    /// Asks for the source to be paused or to play.
    pub fn set_paused(&mut self, paused: bool)
        ensures
            final(self).state() == paused_after(old(self).state(), paused),
            final(self).source() == old(self).source(),
            final(self).silence() == old(self).silence(),
    {
        self.state = match self.state {
            Paused::Yes { .. } if paused => self.state,
            Paused::Yes { frame_offset } => Paused::Ending { frame_offset },
            Paused::Ending { frame_offset } if paused => Paused::Yes { frame_offset },
            Paused::Ending { .. } => self.state,
            Paused::No if paused => Paused::Yes { frame_offset: 0 },
            Paused::No => self.state,
        };
    }

    /// Wraps `source`, paused or not; `silence` is played while paused.
    pub fn new(source: S, paused: bool, silence: T) -> (r: Self)
        ensures
            r.source() == source,
            r.state() == paused_after(Paused::No, paused),
            r.silence() == silence,
    {
        let mut this = Pausable { inner: source, state: Paused::No, silence };
        this.set_paused(paused);
        this
    }

    /// The wrapped source.
    pub fn inner(&self) -> (r: &S)
        ensures
            *r == self.source(),
    {
        &self.inner
    }

    /// Gives the wrapped source back.
    pub fn into_inner(self) -> (r: S)
        ensures
            r == self.source(),
    {
        self.inner
    }
}

impl<S: FixedSource<T>, T: Copy> Pausable<S, T> {
    /// The invariant: the wrapped source's own, and a frame offset inside
    /// the frame while paused.
    pub open spec fn wf(&self) -> bool {
        &&& self.source().wf()
        &&& (self.state() matches Paused::Yes { frame_offset } ==> frame_offset
            < self.source().chans())
        &&& (self.state() matches Paused::Ending { frame_offset } ==> frame_offset
            < self.source().chans())
    }

    /// The next sample: the wrapped source's while playing, silence while
    /// paused and for one sample after a pause was lifted.
    pub fn next(&mut self) -> (r: Option<T>)
        requires
            old(self).wf(),
        ensures
            final(self).wf(),
            final(self).silence() == old(self).silence(),
            final(self).state() == pause_step(old(self).state(), old(self).source().chans()),
            old(self).state() is No ==> pops(
                old(self).source().remaining(),
                final(self).source().remaining(),
                r,
            ),
            old(self).state() is No ==> final(self).source().chans() == old(
                self,
            ).source().chans() && final(self).source().rate() == old(self).source().rate(),
            !(old(self).state() is No) ==> r == Some(old(self).silence()) && final(self).source()
                == old(self).source(),
    {
        let channels = self.inner.channels();
        self.state = match self.state {
            Paused::No => {
                return self.inner.next();
            },
            Paused::Yes { frame_offset } => Paused::Yes {
                frame_offset: (frame_offset + 1) % channels,
            },
            Paused::Ending { frame_offset } if frame_offset == channels => Paused::No,
            Paused::Ending { .. } => Paused::No,
        };
        Some(self.silence)
    }

    /// Samples per second per channel, those of the wrapped source.
    pub fn sample_rate(&self) -> (r: SampleRate)
        requires
            self.wf(),
        ensures
            r == self.source().rate(),
    {
        self.inner.sample_rate()
    }

    /// Number of channels, those of the wrapped source.
    pub fn channels(&self) -> (r: ChannelCount)
        requires
            self.wf(),
        ensures
            r == self.source().chans(),
    {
        self.inner.channels()
    }

    /// The total duration the wrapped source reports, in nanoseconds.
    pub fn total_duration_nanos(&self) -> (r: Option<u128>)
        requires
            self.wf(),
        ensures
            opt_nat(r) == self.source().duration(),
            fits_duration(self.source().duration()),
    {
        self.inner.total_duration_nanos()
    }

    /// The total duration the wrapped source reports.
    pub fn total_duration(&self) -> (r: Option<Duration>)
        requires
            self.wf(),
        ensures
            r == duration_of(self.source().duration()),
    {
        self.inner.total_duration()
    }
}

} // verus!
