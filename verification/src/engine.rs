//! The playback controller: a state machine over the transport state of
//! one audio track.
//!
//! `MusicHandle` models what the controller knows about playback: the
//! display name of the current track, its total length, the elapsed
//! seconds, and the occupancy and pause flag of the current sink.  The
//! process around the engine owns the audio device and the real sink;
//! it performs each transition here first and then mirrors it on the
//! sink, and its progress worker calls [`MusicHandle::tick`] once per
//! second.  A sink holds at most one track, so its occupancy is 0 or 1.

use vstd::prelude::*;

use crate::duration::{duration_secs, valid_duration};
use crate::errors::MusicError;
use crate::track::{base_name, base_name_of};

verus! {

/// The transport state of the playback controller.
pub struct MusicHandle {
    /// Display name of the track last started, the base name of its path.
    pub currently_playing: String,
    /// Total length of that track in seconds, from its duration tag.
    pub song_length: u16,
    /// Seconds of the current track played so far.  Advanced by the
    /// progress worker through [`MusicHandle::tick`]; may briefly exceed
    /// `song_length` near the end of a track, no clamping is enforced.
    pub time_played: u16,
    /// How many tracks the current sink holds: 0 (idle) or 1 (loaded).
    pub sink_len: usize,
    /// Whether the current sink is paused.
    pub sink_paused: bool,
}

impl MusicHandle {
    /// The sink holds at most one track.
    pub open spec fn wf(self) -> bool {
        self.sink_len <= 1
    }

    /// A track is loaded and not paused.
    pub open spec fn is_playing(self) -> bool {
        self.sink_len == 1 && !self.sink_paused
    }

    /// A track is loaded but paused.
    pub open spec fn is_paused(self) -> bool {
        self.sink_len == 1 && self.sink_paused
    }

    /// No track is loaded.
    pub open spec fn is_idle(self) -> bool {
        self.sink_len == 0
    }
}

/// The state after one progress tick: elapsed time advances by one
/// second exactly when a track is loaded and not paused.
pub open spec fn ticked(pre: MusicHandle) -> MusicHandle {
    if pre.is_playing() {
        MusicHandle { time_played: (pre.time_played + 1) as u16, ..pre }
    } else {
        pre
    }
}

/// The state after the sink is stopped: empty, everything else as it was.
pub open spec fn stopped(pre: MusicHandle) -> MusicHandle {
    MusicHandle { sink_len: 0, ..pre }
}

impl MusicHandle {
    /// A fresh controller: idle sink, zero lengths, placeholder name.
    ///
    /// Acquiring the audio output device is the caller's concern; a
    /// controller state is only constructed once a device is held.
    pub fn new() -> (h: MusicHandle)
        ensures
            h.currently_playing@ == "CURRENT SONG"@,
            h.song_length == 0,
            h.time_played == 0,
            h.sink_len == 0,
            h.sink_paused == false,
            h.wf(),
    {
        MusicHandle {
            currently_playing: String::from_str("CURRENT SONG"),
            song_length: 0,
            time_played: 0,
            sink_len: 0,
            sink_paused: false,
        }
    }

    /// The display name of the current track.
    pub fn get_current_song(&self) -> (r: String)
        ensures
            r@ == self.currently_playing@,
    {
        self.currently_playing.clone()
    }

    /// The total length of the current track in seconds.
    pub fn get_song_length(&self) -> (r: u16)
        ensures
            r == self.song_length,
    {
        self.song_length
    }

    /// The seconds of the current track played so far.
    pub fn get_time_played(&self) -> (r: u16)
        ensures
            r == self.time_played,
    {
        self.time_played
    }

    /// How many tracks the sink holds; 0 means nothing is loaded.
    pub fn get_sink_length(&self) -> (r: usize)
        ensures
            r == self.sink_len,
    {
        self.sink_len
    }

    /// Overwrites the elapsed-seconds counter with `t`.  Display-side
    /// correction only: playback position is unaffected.
    pub fn set_time_played(&mut self, t: u16)
        ensures
            *final(self) == (MusicHandle { time_played: t, ..*old(self) }),
    {
        self.time_played = t;
    }

    /// Records the track length read from a duration tag.
    ///
    /// On a missing (`None`) or malformed tag nothing changes and the
    /// call fails with `MetadataUnavailable`; otherwise `song_length`
    /// becomes the tag's minutes-and-seconds value.
    pub fn song_metadata(&mut self, duration_tag: Option<&str>) -> (r: Result<(), MusicError>)
        ensures
            (match duration_tag {
                Some(tag) => {
                    &&& valid_duration(tag@) ==> {
                        &&& r == Ok::<(), MusicError>(())
                        &&& *final(self) == (MusicHandle {
                            song_length: (duration_secs(tag@)) as u16,
                            ..*old(self)
                        })
                    }
                    &&& !valid_duration(tag@) ==> {
                        &&& r == Err::<(), MusicError>(MusicError::MetadataUnavailable)
                        &&& *final(self) == *old(self)
                    }
                },
                None => {
                    &&& r == Err::<(), MusicError>(MusicError::MetadataUnavailable)
                    &&& *final(self) == *old(self)
                },
            }),
    {
        match duration_tag {
            None => Err(MusicError::MetadataUnavailable),
            Some(tag) => {
                match crate::duration::parse_duration(tag) {
                    Err(e) => Err(e),
                    Ok(secs) => {
                        self.song_length = secs;
                        Ok(())
                    },
                }
            },
        }
    }

    /// Starts playing the track at `path`, whose duration tag is
    /// `duration_tag`.
    ///
    /// On success the previous sink is discarded, elapsed time restarts
    /// at zero, the display name becomes the path's base name, the track
    /// length comes from the tag, and a fresh unpaused sink holds the
    /// one new track.  A missing or malformed tag aborts the call with
    /// `MetadataUnavailable` and leaves the controller exactly as it
    /// was.
    pub fn play(&mut self, path: &str, duration_tag: Option<&str>) -> (r: Result<(), MusicError>)
        ensures
            (match duration_tag {
                Some(tag) => {
                    &&& valid_duration(tag@) ==> {
                        &&& r == Ok::<(), MusicError>(())
                        &&& final(self).currently_playing@ == base_name_of(path@)
                        &&& final(self).song_length == duration_secs(tag@)
                        &&& final(self).time_played == 0
                        &&& final(self).sink_len == 1
                        &&& final(self).sink_paused == false
                    }
                    &&& !valid_duration(tag@) ==> {
                        &&& r == Err::<(), MusicError>(MusicError::MetadataUnavailable)
                        &&& *final(self) == *old(self)
                    }
                },
                None => {
                    &&& r == Err::<(), MusicError>(MusicError::MetadataUnavailable)
                    &&& *final(self) == *old(self)
                },
            }),
            old(self).wf() ==> final(self).wf(),
    {
        let meta = self.song_metadata(duration_tag);
        match meta {
            Err(e) => Err(e),
            Ok(()) => {
                self.sink_len = 0;
                self.time_played = 0;
                self.currently_playing = base_name(path);
                self.sink_len = 1;
                self.sink_paused = false;
                Ok(())
            },
        }
    }

    /// Toggles between playing and paused; does nothing while idle.
    pub fn play_pause(&mut self)
        ensures
            old(self).is_idle() ==> *final(self) == *old(self),
            !old(self).is_idle() ==> *final(self) == (MusicHandle {
                sink_paused: !old(self).sink_paused,
                ..*old(self)
            }),
    {
        if self.sink_len != 0 {
            if self.sink_paused {
                self.sink_paused = false;
            } else {
                self.sink_paused = true;
            }
        }
    }

    /// Stops and empties the current sink.
    ///
    /// Also models a track draining on its own: natural completion
    /// converges to the same idle state.
    pub fn skip(&mut self)
        ensures
            *final(self) == stopped(*old(self)),
    {
        self.sink_len = 0;
    }

    /// One step of the progress worker: advances elapsed time by one
    /// second exactly when a track is loaded and not paused.
    pub fn tick(&mut self)
        requires
            old(self).time_played < u16::MAX,
        ensures
            *final(self) == ticked(*old(self)),
    {
        if self.sink_len == 1 && !self.sink_paused {
            self.time_played = self.time_played + 1;
        }
    }
}

/// While a track plays unpaused, each tick advances elapsed time by
/// exactly one second.
pub proof fn lemma_playing_advances_elapsed(m: MusicHandle)
    requires
        m.is_playing(),
        m.time_played < u16::MAX,
    ensures
        ticked(m).time_played == m.time_played + 1,
        ticked(m) == (MusicHandle { time_played: (m.time_played + 1) as u16, ..m }),
{
}

/// While a track is paused, a tick changes nothing: elapsed time stays
/// where it was.
pub proof fn lemma_paused_freezes_elapsed(m: MusicHandle)
    requires
        m.is_paused(),
    ensures
        ticked(m) == m,
{
}

/// After the sink is stopped its occupancy is zero, and no later tick
/// advances elapsed time again: the stopped state is a fixed point of
/// ticking.
pub proof fn lemma_skip_freezes_elapsed(m: MusicHandle)
    ensures
        stopped(m).sink_len == 0,
        ticked(stopped(m)) == stopped(m),
{
}

} // verus!
