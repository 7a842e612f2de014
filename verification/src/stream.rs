//! What goes on inside a running stream.

use crate::signal::AudioSignal;
use crate::tracker::{announcement, share, BeatTracker};
use vstd::prelude::*;

verus! {

/// A bar that is being looped over, and the beat that it has come to.
pub struct Playback<T, F> {
    pub current: AudioSignal<T>,
    pub tracker: BeatTracker<F>,
    pub beats: usize,
    /// The position that was reported last, or the one from which the bar is played. A
    /// position before it belongs to another pass through the bar.
    pub reported: usize,
}

/// The beat that has been sounding up to a position: none where another pass through the
/// bar has begun since the position that was reported last.
pub open spec fn sounding(last: Option<usize>, reported: usize, position: usize) -> Option<usize> {
    if position < reported {
        None
    } else {
        last
    }
}

/// What is announced at each of some positions in turn, from the first report on.
pub open spec fn announcements(samples_per_beat: usize, positions: Seq<usize>) -> Seq<usize>
    decreases positions.len(),
{
    if positions.len() == 0 {
        Seq::empty()
    } else {
        let before = positions.drop_last();
        let position = positions.last();
        let last = if before.len() == 0 {
            None
        } else {
            sounding(
                Some((before.last() / samples_per_beat) as usize),
                before.last(),
                position,
            )
        };
        match announcement(last, (position / samples_per_beat) as usize) {
            Some(beat) => announcements(samples_per_beat, before).push(beat),
            None => announcements(samples_per_beat, before),
        }
    }
}

impl<T, F> Playback<T, F> {
    /// Whether the bar has been reported on at these positions, in turn, and nowhere else.
    pub open spec fn has_reported(self, positions: Seq<usize>) -> bool {
        if positions.len() == 0 {
            self.tracker.last() is None
        } else {
            &&& self.tracker.last() == Some(
                (positions.last() / self.tracker.samples_per_beat()) as usize,
            )
            &&& self.reported == positions.last()
        }
    }

    /// Playback of a bar that holds so many beats.
    pub fn new(buffer: AudioSignal<T>, beats: usize, on_beat: Option<F>) -> (res: Self)
        ensures
            res.current == buffer,
            res.beats == beats,
            res.reported == buffer.index,
            res.tracker.samples_per_beat() == share(buffer.signal@.len(), beats as nat),
            res.tracker.last() is None,
            res.tracker.listener() == on_beat,
            res.has_reported(Seq::empty()),
    {
        let tracker = BeatTracker::new(buffer.signal.len(), beats, on_beat);
        let reported: usize = buffer.index;
        Playback { current: buffer, tracker, beats, reported }
    }

    /// Goes on with another bar of as many beats, from the given position on.
    ///
    /// The tempo decides how long the bar is, so a change of tempo brings a new one. The
    /// beat announced last is remembered across it.
    pub fn swap_in(&mut self, next: AudioSignal<T>, index: usize)
        ensures
            final(self).current == (AudioSignal { index, ..next }),
            final(self).beats == old(self).beats,
            final(self).reported == index,
            final(self).tracker.samples_per_beat() == share(
                next.signal@.len(),
                old(self).beats as nat,
            ),
            final(self).tracker.last() == old(self).tracker.last(),
            final(self).tracker.listener() == old(self).tracker.listener(),
    {
        let mut next = next;
        next.index = index;
        self.tracker.retune(next.signal.len(), self.beats);
        self.current = next;
        self.reported = index;
    }

    /// Settles which beat, if any, the listener is to be told of now: the one that playback
    /// has come to, if it is another one than before or has started sounding anew.
    pub fn report(&mut self) -> (res: Option<usize>)
        ensures
            final(self).current == old(self).current,
            final(self).beats == old(self).beats,
            final(self).reported == old(self).current.index,
            final(self).tracker.samples_per_beat() == old(self).tracker.samples_per_beat(),
            final(self).tracker.listener() == old(self).tracker.listener(),
            old(self).tracker.samples_per_beat() > 0,
            ({
                let position = old(self).current.index;
                let last = sounding(old(self).tracker.last(), old(self).reported, position);
                let beat = (position / old(self).tracker.samples_per_beat()) as usize;
                if old(self).tracker.listener() is Some {
                    &&& res == announcement(last, beat)
                    &&& final(self).tracker.last() == Some(beat)
                } else {
                    &&& res is None
                    &&& final(self).tracker.last() == last
                }
            }),
            old(self).tracker.listener() is Some ==> forall|positions: Seq<usize>| #[trigger]
                old(self).has_reported(positions) ==> {
                    let further = positions.push(old(self).current.index);
                    let samples_per_beat = old(self).tracker.samples_per_beat();
                    &&& final(self).has_reported(further)
                    &&& announcements(samples_per_beat, further) == announcements(
                        samples_per_beat,
                        positions,
                    ) + (match res {
                        Some(beat) => seq![beat],
                        None => Seq::empty(),
                    })
                },
    {
        let position: usize = self.current.index;
        if position < self.reported {
            self.tracker.rewind();
        }
        self.reported = position;
        let res = self.tracker.report(position);
        assert forall|positions: Seq<usize>| #[trigger]
            old(self).has_reported(positions) && old(self).tracker.listener() is Some implies {
            let samples_per_beat = old(self).tracker.samples_per_beat();
            announcements(samples_per_beat, positions.push(position)) == announcements(
                samples_per_beat,
                positions,
            ) + (match res {
                Some(beat) => seq![beat],
                None => Seq::empty(),
            })
        } by {
            assert(positions.push(position).drop_last() =~= positions);
        }
        res
    }
}

} // verus!
