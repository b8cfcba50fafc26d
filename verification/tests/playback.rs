use std::sync::Arc;
use std::time::{Duration, Instant};

use luminode::beatmap::{BeatmapData, RawBeatmap, RawTiming};
use luminode::playback::{begin_poll, frame_for, Frame, PlaybackState, PollAction};
use luminode::spotify::TrackWatcher;

fn beatmap() -> BeatmapData {
    BeatmapData::from_raw(RawBeatmap {
        timing: RawTiming { first_beat_ms: 0, beat_deltas_ms: vec![400, 400], downbeat_bits: vec![0x01] },
        calibration_ms: 0,
        sections: vec![],
    })
}

fn state(is_playing: bool, progress_ms: u32, polled_at: Option<Instant>) -> PlaybackState {
    PlaybackState { track_id: Some("t".to_string()), is_playing, progress_ms, polled_at, beatmap: None }
}

#[test]
fn default_state_is_idle() {
    let s = PlaybackState::default();
    assert!(s.track_id.is_none());
    assert!(!s.is_playing);
    assert_eq!(s.progress_ms, 0);
    assert!(s.polled_at.is_none());
    assert!(s.beatmap.is_none());
}

#[test]
fn position_extrapolates_while_playing() {
    let s = state(true, 1000, None);
    assert_eq!(s.position_after(250), 1250);
    assert_eq!(s.position_after(0), 1000);
}

#[test]
fn position_frozen_while_paused() {
    let s = state(false, 1000, None);
    assert_eq!(s.position_after(250), 1000);
    assert_eq!(s.current_position_ms(), 1000);
}

#[test]
fn position_saturates_and_truncates_elapsed() {
    let s = state(true, u32::MAX - 10, None);
    assert_eq!(s.position_after(100), u32::MAX);
    let s = state(true, 1000, None);
    assert_eq!(s.position_after((1u128 << 32) + 5), 1005);
}

#[test]
fn current_position_without_poll_time() {
    let s = state(true, 1234, None);
    assert_eq!(s.current_position_ms(), 1234);
}

#[test]
fn current_position_counts_time_since_poll() {
    let polled = Instant::now().checked_sub(Duration::from_millis(5000)).unwrap();
    let s = state(true, 1000, Some(polled));
    let pos = s.current_position_ms();
    assert!(pos >= 6000);
    assert!(pos < 66000);
    let paused = state(false, 1000, Some(polled));
    assert_eq!(paused.current_position_ms(), 1000);
}

#[test]
fn clear_track_keeps_position() {
    let polled = Instant::now();
    let mut s = state(true, 777, Some(polled));
    s.beatmap = Some(Arc::new(beatmap()));
    s.clear_track();
    assert!(s.track_id.is_none());
    assert!(!s.is_playing);
    assert!(s.beatmap.is_none());
    assert_eq!(s.progress_ms, 777);
    assert_eq!(s.polled_at, Some(polled));
}

#[test]
fn record_track_sets_everything() {
    let polled = Instant::now();
    let mut s = PlaybackState::default();
    s.record_track("abc".to_string(), 4321, true, polled, Some(Arc::new(beatmap())));
    assert_eq!(s.track_id.as_deref(), Some("abc"));
    assert!(s.is_playing);
    assert_eq!(s.progress_ms, 4321);
    assert_eq!(s.polled_at, Some(polled));
    assert!(s.beatmap.is_some());
}

#[test]
fn frame_choice() {
    let bm = beatmap();
    match frame_for(true, 500, Some(&bm)) {
        Frame::BeatSynced(bs) => {
            assert_eq!(bs.beat_index, 1);
            assert_eq!(bs.offset_ms, 100);
            assert_eq!(bs.length_ms, 400);
        }
        Frame::Rainbow => panic!("expected a beat-synced frame"),
    }
    assert!(matches!(frame_for(false, 500, Some(&bm)), Frame::Rainbow));
    assert!(matches!(frame_for(true, 500, None), Frame::Rainbow));
    assert!(matches!(frame_for(false, 500, None), Frame::Rainbow));
}

#[test]
fn poll_step_new_then_same_track() {
    let mut w = TrackWatcher::new();
    let mut s = PlaybackState::default();
    let id = "abc".to_string();
    assert!(matches!(begin_poll(&mut w, &mut s, Some(&id)), PollAction::FetchBeatmap));
    let polled = Instant::now();
    s.finish_poll(id.clone(), 100, true, polled, Some(Some(Arc::new(beatmap()))));
    assert!(s.beatmap.is_some());
    assert!(matches!(begin_poll(&mut w, &mut s, Some(&id)), PollAction::KeepBeatmap));
    s.finish_poll(id.clone(), 5100, true, polled, None);
    assert!(s.beatmap.is_some());
    assert_eq!(s.progress_ms, 5100);
    assert_eq!(s.track_id.as_deref(), Some("abc"));
}

#[test]
fn poll_step_new_track_without_beatmap() {
    let mut w = TrackWatcher::new();
    let mut s = PlaybackState::default();
    s.beatmap = Some(Arc::new(beatmap()));
    let id = "other".to_string();
    assert!(matches!(begin_poll(&mut w, &mut s, Some(&id)), PollAction::FetchBeatmap));
    s.finish_poll(id, 0, false, Instant::now(), Some(None));
    assert!(s.beatmap.is_none());
    assert!(!s.is_playing);
}

#[test]
fn poll_step_nothing_playing() {
    let mut w = TrackWatcher::new();
    let mut s = PlaybackState::default();
    let id = "abc".to_string();
    begin_poll(&mut w, &mut s, Some(&id));
    s.finish_poll(id, 300, true, Instant::now(), Some(Some(Arc::new(beatmap()))));
    match begin_poll(&mut w, &mut s, None) {
        PollAction::Stopped { was_playing } => assert!(was_playing),
        _ => panic!("expected a stop"),
    }
    assert!(s.track_id.is_none());
    assert!(!s.is_playing);
    assert!(s.beatmap.is_none());
    assert_eq!(s.progress_ms, 300);
    match begin_poll(&mut w, &mut s, None) {
        PollAction::Stopped { was_playing } => assert!(!was_playing),
        _ => panic!("expected a stop"),
    }
}
