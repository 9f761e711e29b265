use vstd::prelude::*;

use crate::common::ChannelCount;

verus! {

/// Gathers the samples of a source into frames of one sample per channel,
/// to hand each complete frame to an inspecting function.
pub struct FrameCollector<T> {
    frame: Vec<T>,
    channels: ChannelCount,
}

impl<T> FrameCollector<T> {
    /// The samples of the frame gathered so far.
    pub closed spec fn pending(&self) -> Seq<T> {
        self.frame@
    }

    /// The number of samples in a frame.
    pub closed spec fn frame_len(&self) -> nat {
        self.channels as nat
    }

    /// The invariant: a frame is handed out as soon as it is complete.
    pub open spec fn wf(&self) -> bool {
        &&& self.frame_len() > 0
        &&& self.pending().len() < self.frame_len()
    }

    /// Gathers frames of `channels` samples.
    pub fn new(channels: ChannelCount) -> (r: Self)
        requires
            channels > 0,
        ensures
            r.wf(),
            r.pending() == Seq::<T>::empty(),
            r.frame_len() == channels,
    {
        let mut frame = Vec::new();
        frame.reserve(channels as usize);
        FrameCollector { frame, channels }
    }

    /// Adds a played sample; when that completes a frame, the frame is
    /// handed out and gathering starts anew.
    pub fn push(&mut self, sample: T) -> (r: Option<Vec<T>>)
        requires
            old(self).wf(),
        ensures
            final(self).wf(),
            final(self).frame_len() == old(self).frame_len(),
            old(self).pending().len() + 1 == old(self).frame_len() ==> {
                &&& r matches Some(frame) && frame@ == old(self).pending().push(sample)
                &&& final(self).pending() == Seq::<T>::empty()
            },
            old(self).pending().len() + 1 < old(self).frame_len() ==> {
                &&& r is None
                &&& final(self).pending() == old(self).pending().push(sample)
            },
    {
        self.frame.push(sample);
        if self.frame.len() == self.channels as usize {
            let mut complete = Vec::new();
            std::mem::swap(&mut complete, &mut self.frame);
            Some(complete)
        } else {
            None
        }
    }

    /// Takes back the buffer the inspecting function returned, emptied, to
    /// gather the next frame in.
    pub fn give_back(&mut self, buffer: Vec<T>)
        requires
            old(self).wf(),
            old(self).pending() == Seq::<T>::empty(),
        ensures
            final(self).wf(),
            final(self).frame_len() == old(self).frame_len(),
            final(self).pending() == Seq::<T>::empty(),
    {
        let mut buffer = buffer;
        buffer.clear();
        self.frame = buffer;
    }
}

} // verus!
