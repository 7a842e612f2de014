//! Which beat of the bar is sounding.

use vstd::prelude::*;

verus! {

/// How many samples of a buffer belong to each of its beats: an even share, of one sample
/// at least.
pub open spec fn share(buffer_samples: nat, beats: nat) -> nat {
    let even = buffer_samples / (if beats > 0 {
        beats
    } else {
        1
    });
    if even > 0 {
        even
    } else {
        1
    }
}

fn even_share(buffer_samples: usize, beats: usize) -> (res: usize)
    ensures
        res == share(buffer_samples as nat, beats as nat),
        res > 0,
{
    let even: usize = buffer_samples / (if beats > 0 {
        beats
    } else {
        1
    });
    if even > 0 {
        even
    } else {
        1
    }
}

/// The beat to announce when the player has come to a beat, given the one announced last:
/// the new beat, unless it is the same.
pub open spec fn announcement(last: Option<usize>, beat: usize) -> Option<usize> {
    if last == Some(beat) {
        None
    } else {
        Some(beat)
    }
}

/// Turns the playback position into a beat number.
///
/// The player loops one buffer holding the whole pattern, and every beat in it
/// is the same length, so the position alone says which beat is sounding. That
/// makes the beat come from the audio clock rather than a second timer that
/// would drift away from it.
pub struct BeatTracker<F> {
    samples_per_beat: usize,
    last: Option<usize>,
    listener: Option<F>,
}

impl<F> BeatTracker<F> {
    #[verifier::type_invariant]
    spec fn inv(self) -> bool {
        self.samples_per_beat > 0
    }

    /// How many samples each beat lasts.
    pub closed spec fn samples_per_beat(self) -> usize {
        self.samples_per_beat
    }

    /// The beat that was announced last.
    pub closed spec fn last(self) -> Option<usize> {
        self.last
    }

    /// Who is told of each new beat.
    pub closed spec fn listener(self) -> Option<F> {
        self.listener
    }

    /// A tracker of a buffer that holds so many beats. It has announced nothing yet.
    pub fn new(buffer_samples: usize, beats: usize, listener: Option<F>) -> (res: Self)
        ensures
            res.samples_per_beat() == share(buffer_samples as nat, beats as nat),
            res.last() is None,
            res.listener() == listener,
    {
        BeatTracker { samples_per_beat: even_share(buffer_samples, beats), last: None, listener }
    }

    /// Goes on with a buffer of another length.
    pub fn retune(&mut self, buffer_samples: usize, beats: usize)
        ensures
            final(self).samples_per_beat() == share(buffer_samples as nat, beats as nat),
            final(self).last() == old(self).last(),
            final(self).listener() == old(self).listener(),
    {
        self.samples_per_beat = even_share(buffer_samples, beats);
    }

    /// Starts over: whatever beat comes next is a new one.
    pub fn rewind(&mut self)
        ensures
            final(self).samples_per_beat() == old(self).samples_per_beat(),
            final(self).last() is None,
            final(self).listener() == old(self).listener(),
    {
        proof {
            use_type_invariant(&*self);
        }
        self.last = None;
    }

    /// Who is to be told of what `report` announces.
    pub fn on_beat(&self) -> (res: Option<&F>)
        ensures
            match res {
                Some(listener) => self.listener() == Some(*listener),
                None => self.listener() is None,
            },
    {
        self.listener.as_ref()
    }

    /// Settles which beat, if any, the listener is to be told of at a playback position, and
    /// remembers it. Without a listener nothing is announced or remembered.
    pub fn report(&mut self, position: usize) -> (res: Option<usize>)
        ensures
            final(self).samples_per_beat() == old(self).samples_per_beat(),
            final(self).listener() == old(self).listener(),
            old(self).samples_per_beat() > 0,
            old(self).listener() is None ==> res is None && final(self).last() == old(self).last(),
            old(self).listener() is Some ==> {
                let beat = (position / old(self).samples_per_beat()) as usize;
                &&& res == announcement(old(self).last(), beat)
                &&& final(self).last() == Some(beat)
            },
    {
        proof {
            use_type_invariant(&*self);
        }
        if self.listener.is_none() {
            return None;
        }
        let beat: usize = position / self.samples_per_beat;
        if self.last == Some(beat) {
            return None;
        }
        self.last = Some(beat);
        Some(beat)
    }
}

} // verus!
