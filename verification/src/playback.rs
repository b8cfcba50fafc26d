use vstd::prelude::*;

use std::sync::Arc;
use std::time::Instant;

use crate::beatmap::{beat_state_at, beat_state_matches, BeatState, BeatmapData};
use crate::clock::{duration_millis, instant_elapsed};
use crate::spotify::{remembered, track_step, TrackWatcher};

verus! {

/// Playback position extrapolated from the last poll: unchanged while
/// paused, otherwise the polled position plus the elapsed milliseconds
/// (taken modulo 2^32), held at `u32::MAX`.
pub open spec fn extrapolated_position(progress_ms: u32, is_playing: bool, elapsed_ms: u128) -> int {
    if !is_playing {
        progress_ms as int
    } else {
        let sum = progress_ms + (elapsed_ms as u32);
        if sum > u32::MAX {
            u32::MAX as int
        } else {
            sum
        }
    }
}

/// What the poller last learned about playback.
pub struct PlaybackState {
    pub track_id: Option<String>,
    pub is_playing: bool,
    /// Playback position at the time of the last poll.
    pub progress_ms: u32,
    /// Clock reading when `progress_ms` was captured.
    pub polled_at: Option<Instant>,
    /// Present when a beatmap for the current track was found.
    pub beatmap: Option<Arc<BeatmapData>>,
}

impl Default for PlaybackState {
    fn default() -> (s: Self)
        ensures
            s.track_id is None,
            !s.is_playing,
            s.progress_ms == 0,
            s.polled_at is None,
            s.beatmap is None,
    {
        PlaybackState {
            track_id: None,
            is_playing: false,
            progress_ms: 0,
            polled_at: None,
            beatmap: None,
        }
    }
}

impl PlaybackState {
    /// Position once `elapsed_ms` have passed since the last poll.
    pub fn position_after(&self, elapsed_ms: u128) -> (pos: u32)
        ensures
            pos == extrapolated_position(self.progress_ms, self.is_playing, elapsed_ms),
            !self.is_playing ==> pos == self.progress_ms,
            self.is_playing && self.progress_ms as int + (elapsed_ms % 0x1_0000_0000) <= u32::MAX
                ==> pos as int == self.progress_ms as int + (elapsed_ms % 0x1_0000_0000),
            self.is_playing && self.progress_ms as int + (elapsed_ms % 0x1_0000_0000) > u32::MAX
                ==> pos == u32::MAX,
    {
        if !self.is_playing {
            return self.progress_ms;
        }
        let e = elapsed_ms as u32;
        assert(e == elapsed_ms % 0x1_0000_0000) by (bit_vector)
            requires
                e == elapsed_ms as u32,
        ;
        self.progress_ms.saturating_add(e)
    }

    /// Estimated current playback position, extrapolated from the last poll
    /// by the time the clock says has passed since.
    pub fn current_position_ms(&self) -> (pos: u32)
        ensures
            exists|e: u128| pos == extrapolated_position(self.progress_ms, self.is_playing, e),
            (!self.is_playing || self.polled_at is None) ==> pos == self.progress_ms,
            pos >= self.progress_ms,
    {
        if !self.is_playing {
            assert(self.progress_ms == extrapolated_position(self.progress_ms, self.is_playing, 0));
            return self.progress_ms;
        }
        let elapsed: u128 = match &self.polled_at {
            Some(t) => duration_millis(&instant_elapsed(t)),
            None => 0,
        };
        let pos = self.position_after(elapsed);
        assert(pos == extrapolated_position(self.progress_ms, self.is_playing, elapsed));
        pos
    }

    /// Nothing is playing: playback stops and the track and its beatmap are
    /// forgotten; the last position and poll time stay.
    pub fn clear_track(&mut self)
        ensures
            final(self).track_id is None,
            !final(self).is_playing,
            final(self).beatmap is None,
            final(self).progress_ms == old(self).progress_ms,
            final(self).polled_at == old(self).polled_at,
    {
        self.is_playing = false;
        self.track_id = None;
        self.beatmap = None;
    }

    /// Records a poll of a playing (or paused) track whose beatmap question
    /// has been settled: `fetched` holds the beatmap just fetched for a new
    /// track, or is `None` to keep the stored one for the same track.
    pub fn finish_poll(
        &mut self,
        track_id: String,
        progress_ms: u32,
        is_playing: bool,
        polled_at: Instant,
        fetched: Option<Option<Arc<BeatmapData>>>,
    )
        ensures
            final(self).track_id == Some(track_id),
            final(self).is_playing == is_playing,
            final(self).progress_ms == progress_ms,
            final(self).polled_at == Some(polled_at),
            final(self).beatmap == kept_beatmap(old(self).beatmap, fetched),
    {
        let beatmap = match fetched {
            Some(b) => b,
            None => self.beatmap.take(),
        };
        self.record_track(track_id, progress_ms, is_playing, polled_at, beatmap);
    }

    /// Records a fresh poll of a playing (or paused) track.
    pub fn record_track(
        &mut self,
        track_id: String,
        progress_ms: u32,
        is_playing: bool,
        polled_at: Instant,
        beatmap: Option<Arc<BeatmapData>>,
    )
        ensures
            final(self).track_id == Some(track_id),
            final(self).is_playing == is_playing,
            final(self).progress_ms == progress_ms,
            final(self).polled_at == Some(polled_at),
            final(self).beatmap == beatmap,
    {
        self.track_id = Some(track_id);
        self.is_playing = is_playing;
        self.progress_ms = progress_ms;
        self.polled_at = Some(polled_at);
        self.beatmap = beatmap;
    }
}

/// The beatmap stored after a poll: the one fetched, if the poll fetched
/// one, else the one stored before.
pub open spec fn kept_beatmap(
    stored: Option<Arc<BeatmapData>>,
    fetched: Option<Option<Arc<BeatmapData>>>,
) -> Option<Arc<BeatmapData>> {
    match fetched {
        Some(b) => b,
        None => stored,
    }
}

/// What a poll result calls for.
pub enum PollAction {
    /// Nothing is playing (the playback state has been cleared);
    /// `was_playing` tells whether a track was playing before.
    Stopped { was_playing: bool },
    /// A new track: fetch its beatmap and pass it to `finish_poll`.
    FetchBeatmap,
    /// The same track as before: `finish_poll` keeps the stored beatmap.
    KeepBeatmap,
}

/// `new` is `old` with playback stopped and the track and its beatmap
/// forgotten; the last position and poll time stay.
pub open spec fn cleared(old: PlaybackState, new: PlaybackState) -> bool {
    &&& new.track_id is None
    &&& !new.is_playing
    &&& new.beatmap is None
    &&& new.progress_ms == old.progress_ms
    &&& new.polled_at == old.polled_at
}

/// One step of the poll loop's decisions. `track_id` is the track the poll
/// found playing, `None` when nothing (or no track) is. When nothing plays
/// the state is cleared and the watcher forgets its track; otherwise the
/// watcher records the track and the state is left for `finish_poll`, with
/// a beatmap fetch exactly when the track changed.
pub fn begin_poll(
    watcher: &mut TrackWatcher,
    state: &mut PlaybackState,
    track_id: Option<&String>,
) -> (a: PollAction)
    ensures
        track_id is None ==> {
            &&& a == PollAction::Stopped { was_playing: old(watcher).last_track_id is Some }
            &&& final(watcher).last_track_id is None
            &&& cleared(*old(state), *final(state))
        },
        track_id matches Some(t) ==> {
            &&& (remembered(final(watcher).last_track_id), a is FetchBeatmap) == track_step(
                remembered(old(watcher).last_track_id),
                t@,
            )
            &&& (a is FetchBeatmap || a is KeepBeatmap)
            &&& *final(state) == *old(state)
        },
{
    match track_id {
        None => {
            let was_playing = watcher.playback_stopped();
            state.clear_track();
            PollAction::Stopped { was_playing }
        },
        Some(t) => {
            if watcher.track_seen(t) {
                PollAction::FetchBeatmap
            } else {
                PollAction::KeepBeatmap
            }
        },
    }
}

/// A poll that finds the track the watcher remembers fetches nothing, and
/// finishing it without a fetch keeps the stored beatmap: a beatmap, once
/// fetched for a track, stays with it until the track changes or playback
/// stops.
pub proof fn lemma_same_track_keeps_beatmap(
    last: Option<Seq<char>>,
    track: Seq<char>,
    stored: Option<Arc<BeatmapData>>,
)
    requires
        last == Some(track),
    ensures
        !track_step(last, track).1,
        track_step(last, track).0 == last,
        kept_beatmap(stored, None) == stored,
{
}

/// What one animation frame shows.
pub enum Frame {
    /// Flash in time with the beat.
    BeatSynced(BeatState),
    /// The rainbow breathing animation.
    Rainbow,
}

/// Chooses the frame: beat-synced while a track plays and its beatmap is
/// known, the rainbow otherwise.
pub fn frame_for(is_playing: bool, position_ms: u32, beatmap: Option<&BeatmapData>) -> (f: Frame)
    ensures
        (f is BeatSynced) <==> (is_playing && beatmap is Some),
        f matches Frame::BeatSynced(bs) ==> beat_state_matches(beatmap.unwrap(), position_ms, bs),
{
    if is_playing {
        match beatmap {
            Some(bm) => Frame::BeatSynced(beat_state_at(bm, position_ms)),
            None => Frame::Rainbow,
        }
    } else {
        Frame::Rainbow
    }
}

} // verus!
