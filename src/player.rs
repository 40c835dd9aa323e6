use vstd::prelude::*;

verus! {

/// Position of a playback source within a sample sequence of fixed length.
#[derive(Debug, Clone, Copy, PartialEq, Eq, Structural)]
pub struct PlaybackCursor {
    pub len: usize,
    pub current_index: usize,
}

impl PlaybackCursor {
    pub open spec fn wf(&self) -> bool {
        self.current_index <= self.len
    }

    /// A cursor at the start of `len` samples.
    pub fn new(len: usize) -> (r: PlaybackCursor)
        ensures
            r.wf(),
            r.len == len,
            r.current_index == 0,
    {
        PlaybackCursor { len, current_index: 0 }
    }

    /// The index of the next sample to play, and the cursor moved past it;
    /// `None` once every sample has been played.
    pub fn next_index(&mut self) -> (r: Option<usize>)
        requires
            old(self).wf(),
        ensures
            final(self).wf(),
            final(self).len == old(self).len,
            old(self).current_index < old(self).len ==> r == Some(old(self).current_index)
                && final(self).current_index == old(self).current_index + 1,
            old(self).current_index >= old(self).len ==> r.is_none() && *final(self) == *old(self),
    {
        if self.current_index >= self.len {
            None
        } else {
            let i = self.current_index;
            self.current_index = i + 1;
            Some(i)
        }
    }

    /// How many samples are left to play.
    pub fn current_frame_len(&self) -> (r: usize)
        requires
            self.wf(),
        ensures
            r == self.len - self.current_index,
    {
        self.len - self.current_index
    }
}

} // verus!
