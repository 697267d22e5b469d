//! The jukebox's track-selection decisions. The host owns the playback
//! thread and the stop channel; each decision here says which track to
//! start, and the host performs it.

use vstd::prelude::*;

verus! {

/// The player's state: which track is selected out of how many, and
/// whether one is playing.
pub struct Player {
    current_track: usize,
    is_playing: bool,
    track_count: usize,
}

impl Player {
    /// The selected track.
    pub closed spec fn current_track(&self) -> int {
        self.current_track as int
    }

    /// Whether a track is playing.
    pub closed spec fn is_playing(&self) -> bool {
        self.is_playing
    }

    /// How many tracks the playlist holds.
    pub closed spec fn track_count(&self) -> int {
        self.track_count as int
    }

    /// The playlist is never empty and the selection stays inside it.
    pub open spec fn wf(&self) -> bool {
        &&& 1 <= self.track_count()
        &&& self.current_track() < self.track_count()
    }

    /// A stopped player on the first of `track_count` tracks.
    pub fn new(track_count: usize) -> (p: Player)
        requires
            1 <= track_count,
        ensures
            p.wf(),
            p.track_count() == track_count,
            p.current_track() == 0,
            !p.is_playing(),
    {
        Player { current_track: 0, is_playing: false, track_count }
    }

    /// Starts playback of the selected track; the host is to start that
    /// track.
    pub fn play(&mut self) -> (track: usize)
        requires
            old(self).wf(),
        ensures
            final(self).wf(),
            final(self).track_count() == old(self).track_count(),
            final(self).current_track() == old(self).current_track(),
            final(self).is_playing(),
            track as int == old(self).current_track(),
    {
        self.is_playing = true;
        self.current_track
    }

    /// Stops playback; the host is to signal the playback thread exactly
    /// when something was playing.
    pub fn stop(&mut self) -> (was_playing: bool)
        requires
            old(self).wf(),
        ensures
            final(self).wf(),
            final(self).track_count() == old(self).track_count(),
            final(self).current_track() == old(self).current_track(),
            !final(self).is_playing(),
            was_playing == old(self).is_playing(),
    {
        let was_playing = self.is_playing;
        self.is_playing = false;
        was_playing
    }

    /// Advances to the next track, wrapping past the end of the
    /// playlist, and starts it; the host is to stop any running playback
    /// first and start the returned track.
    pub fn next(&mut self) -> (track: usize)
        requires
            old(self).wf(),
        ensures
            final(self).wf(),
            final(self).track_count() == old(self).track_count(),
            final(self).current_track() == (old(self).current_track() + 1)
                % old(self).track_count(),
            final(self).is_playing(),
            track as int == final(self).current_track(),
    {
        self.is_playing = false;
        self.current_track = (self.current_track + 1) % self.track_count;
        self.play()
    }

    /// Steps back to the previous track, wrapping past the start of the
    /// playlist, and starts it; the host is to stop any running playback
    /// first and start the returned track.
    pub fn previous(&mut self) -> (track: usize)
        requires
            old(self).wf(),
        ensures
            final(self).wf(),
            final(self).track_count() == old(self).track_count(),
            final(self).current_track() == (old(self).current_track() + old(self).track_count()
                - 1) % old(self).track_count(),
            final(self).is_playing(),
            track as int == final(self).current_track(),
    {
        self.is_playing = false;
        proof {
            let count = self.track_count as int;
            if self.current_track == 0 {
                vstd::arithmetic::div_mod::lemma_small_mod(
                    (self.track_count - 1) as nat,
                    self.track_count as nat,
                );
            } else {
                vstd::arithmetic::div_mod::lemma_mod_multiples_vanish(
                    1,
                    self.current_track as int - 1,
                    count,
                );
                vstd::arithmetic::div_mod::lemma_small_mod(
                    (self.current_track - 1) as nat,
                    self.track_count as nat,
                );
            }
        }
        self.current_track = if self.current_track == 0 {
            self.track_count - 1
        } else {
            self.current_track - 1
        };
        self.play()
    }
}

} // verus!
