use luminode::spotify::{
    choose_client_id, classify_beatmap_reply, current_track, current_track_from_body, BeatmapReply,
    NowPlayingReply, SpotifyAuth, TokenReply, TrackWatcher,
};

fn auth(expires_at_epoch_secs: u64) -> SpotifyAuth {
    SpotifyAuth {
        access_token: "old-access".to_string(),
        refresh_token: "old-refresh".to_string(),
        expires_at_epoch_secs,
        client_id: Some("cid".to_string()),
    }
}

fn reply(kind: Option<&str>, id: Option<&str>, progress: Option<u64>, playing: Option<bool>) -> NowPlayingReply {
    NowPlayingReply {
        currently_playing_type: kind.map(|s| s.to_string()),
        item_id: id.map(|s| s.to_string()),
        progress_ms: progress,
        is_playing: playing,
    }
}

#[test]
fn expiry_has_a_minute_of_margin() {
    let a = auth(1000);
    assert!(!a.is_expired_at(939));
    assert!(a.is_expired_at(940));
    assert!(a.is_expired_at(5000));
    assert!(auth(30).is_expired_at(0));
    assert!(!auth(u64::MAX).is_expired_at(u64::MAX - 61));
    assert!(auth(u64::MAX).is_expired_at(u64::MAX - 60));
}

#[test]
fn expiry_by_wall_clock() {
    assert!(auth(0).is_expired());
    assert!(auth(1_000_000_000).is_expired());
    assert!(!auth(u64::MAX).is_expired());
}

#[test]
fn refresh_replaces_given_tokens() {
    let mut a = auth(0);
    let applied = a.apply_refresh_at(
        TokenReply {
            access_token: Some("new-access".to_string()),
            expires_in: Some(120),
            refresh_token: Some("new-refresh".to_string()),
        },
        1000,
    );
    assert!(applied);
    assert_eq!(a.access_token, "new-access");
    assert_eq!(a.refresh_token, "new-refresh");
    assert_eq!(a.expires_at_epoch_secs, 1120);
    assert_eq!(a.client_id.as_deref(), Some("cid"));
}

#[test]
fn refresh_keeps_missing_tokens_and_defaults_lifetime() {
    let mut a = auth(0);
    assert!(a.apply_refresh_at(TokenReply { access_token: None, expires_in: None, refresh_token: None }, 1000));
    assert_eq!(a.access_token, "old-access");
    assert_eq!(a.refresh_token, "old-refresh");
    assert_eq!(a.expires_at_epoch_secs, 4600);
}

#[test]
fn refresh_by_wall_clock() {
    let mut a = auth(0);
    let applied = a.apply_refresh(TokenReply {
        access_token: Some("x".to_string()),
        expires_in: Some(100),
        refresh_token: None,
    });
    assert!(applied);
    assert_eq!(a.access_token, "x");
    assert!(a.expires_at_epoch_secs > 1_000_000_100);
    assert!(!a.is_expired());
}

#[test]
fn refresh_refused_when_expiry_overflows() {
    let mut a = auth(7);
    let applied = a.apply_refresh(TokenReply {
        access_token: Some("x".to_string()),
        expires_in: Some(u64::MAX),
        refresh_token: None,
    });
    assert!(!applied);
    assert_eq!(a.access_token, "old-access");
    assert_eq!(a.expires_at_epoch_secs, 7);
}

#[test]
fn client_id_preference() {
    assert_eq!(choose_client_id("env", &Some("saved".to_string())).as_deref(), Some("env"));
    assert_eq!(choose_client_id("", &Some("saved".to_string())).as_deref(), Some("saved"));
    assert_eq!(choose_client_id("env", &None).as_deref(), Some("env"));
    assert_eq!(choose_client_id("", &None), None);
    assert_eq!(choose_client_id("", &Some(String::new())), None);
}

#[test]
fn current_track_reads_reply() {
    let r = current_track(200, Some(reply(Some("track"), Some("abc"), Some(1234), Some(true))));
    assert_eq!(r, Some(("abc".to_string(), 1234, true)));
}

#[test]
fn current_track_defaults() {
    let r = current_track(200, Some(reply(Some("track"), Some("abc"), None, None)));
    assert_eq!(r, Some(("abc".to_string(), 0, false)));
    let r = current_track(200, Some(reply(Some("track"), Some("abc"), Some((1u64 << 32) + 7), Some(false))));
    assert_eq!(r, Some(("abc".to_string(), 7, false)));
}

#[test]
fn current_track_rejects_non_tracks() {
    assert_eq!(current_track(204, Some(reply(Some("track"), Some("abc"), Some(1), Some(true)))), None);
    assert_eq!(current_track(200, None), None);
    assert_eq!(current_track(200, Some(reply(Some("episode"), Some("abc"), Some(1), Some(true)))), None);
    assert_eq!(current_track(200, Some(reply(None, Some("abc"), Some(1), Some(true)))), None);
    assert_eq!(current_track(200, Some(reply(Some("track"), None, Some(1), Some(true)))), None);
}

#[test]
fn beatmap_reply_classification() {
    assert!(matches!(classify_beatmap_reply(200), BeatmapReply::Decode));
    assert!(matches!(classify_beatmap_reply(404), BeatmapReply::NotFound));
    assert!(matches!(classify_beatmap_reply(500), BeatmapReply::Unexpected));
    assert!(matches!(classify_beatmap_reply(204), BeatmapReply::Unexpected));
}

#[test]
fn beatmap_fetched_once_per_track() {
    let mut w = TrackWatcher::new();
    assert!(w.track_seen(&"a".to_string()));
    assert!(!w.track_seen(&"a".to_string()));
    assert!(w.track_seen(&"b".to_string()));
    assert_eq!(w.last_track_id.as_deref(), Some("b"));
    assert!(w.playback_stopped());
    assert!(!w.playback_stopped());
    assert!(w.track_seen(&"b".to_string()));
}

#[test]
fn refresh_at_refused_when_expiry_overflows() {
    let mut a = auth(7);
    let reply = TokenReply { access_token: Some("x".to_string()), expires_in: None, refresh_token: None };
    assert!(!a.apply_refresh_at(reply, u64::MAX - 3599));
    assert_eq!(a.access_token, "old-access");
    assert_eq!(a.expires_at_epoch_secs, 7);
    let reply = TokenReply { access_token: Some("x".to_string()), expires_in: None, refresh_token: None };
    assert!(a.apply_refresh_at(reply, u64::MAX - 3600));
    assert_eq!(a.expires_at_epoch_secs, u64::MAX);
}

#[test]
fn refresh_from_json_body() {
    let mut a = auth(0);
    let body = br#"{"access_token":"fresh","token_type":"Bearer","expires_in":100,"refresh_token":"r2"}"#;
    assert_eq!(a.apply_refresh_body(body), Some(true));
    assert_eq!(a.access_token, "fresh");
    assert_eq!(a.refresh_token, "r2");
    assert!(a.expires_at_epoch_secs > 1_000_000_100);
}

#[test]
fn refresh_from_json_body_with_missing_and_mistyped_fields() {
    let mut a = auth(0);
    let body = br#"{"access_token":42,"expires_in":"soon"}"#;
    assert_eq!(a.apply_refresh_body(body), Some(true));
    assert_eq!(a.access_token, "old-access");
    assert_eq!(a.refresh_token, "old-refresh");
    assert!(a.expires_at_epoch_secs > 1_000_003_600);
}

#[test]
fn refresh_from_unparsable_body_changes_nothing() {
    let mut a = auth(9);
    assert_eq!(a.apply_refresh_body(b"not json"), None);
    assert_eq!(a.access_token, "old-access");
    assert_eq!(a.expires_at_epoch_secs, 9);
}

#[test]
fn refresh_from_body_refused_when_expiry_overflows() {
    let mut a = auth(9);
    assert_eq!(a.apply_refresh_body(br#"{"expires_in":18446744073709551615}"#), Some(false));
    assert_eq!(a.expires_at_epoch_secs, 9);
}

#[test]
fn current_track_from_json_body() {
    let body = br#"{"currently_playing_type":"track","progress_ms":61000,"is_playing":true,"item":{"id":"4uLU6hMCjMI75M1A2tKUQC","name":"x"}}"#;
    assert_eq!(
        current_track_from_body(200, body),
        Some(("4uLU6hMCjMI75M1A2tKUQC".to_string(), 61000, true))
    );
}

#[test]
fn current_track_from_json_body_defaults_mistyped_fields() {
    let body = br#"{"currently_playing_type":"track","progress_ms":"late","is_playing":1,"item":{"id":"abc"}}"#;
    assert_eq!(current_track_from_body(200, body), Some(("abc".to_string(), 0, false)));
}

#[test]
fn current_track_from_body_rejections() {
    let track = br#"{"currently_playing_type":"track","progress_ms":1,"is_playing":true,"item":{"id":"abc"}}"#;
    assert_eq!(current_track_from_body(204, track), None);
    assert_eq!(current_track_from_body(200, b""), None);
    assert_eq!(current_track_from_body(200, b"{"), None);
    let episode = br#"{"currently_playing_type":"episode","item":{"id":"abc"}}"#;
    assert_eq!(current_track_from_body(200, episode), None);
    let no_id = br#"{"currently_playing_type":"track","item":null}"#;
    assert_eq!(current_track_from_body(200, no_id), None);
}
