use vstd::prelude::*;

use crate::clock::unix_time_secs;
use crate::palette::same_text;

verus! {

/// Seconds before the expiry time at which a token counts as expired.
pub const EXPIRY_MARGIN_SECS: u64 = 60;

/// Lifetime assumed for a refreshed token whose reply gives none.
pub const DEFAULT_EXPIRES_IN_SECS: u64 = 3600;

/// A token expiring at `expires_at` is due for refresh at time `now`.
pub open spec fn expired_at(expires_at: u64, now: int) -> bool {
    now + EXPIRY_MARGIN_SECS >= expires_at
}

/// Spotify credentials as kept in the token file.
pub struct SpotifyAuth {
    pub access_token: String,
    pub refresh_token: String,
    pub expires_at_epoch_secs: u64,
    pub client_id: Option<String>,
}

/// The fields of a token endpoint reply that the refresh uses; each is
/// `None` when the reply lacks it or holds it with another JSON type.
pub struct TokenReply {
    pub access_token: Option<String>,
    pub expires_in: Option<u64>,
    pub refresh_token: Option<String>,
}

/// A token reply's fields as mathematical values: access token, lifetime in
/// seconds, refresh token.
pub type TokenFields = (Option<Seq<char>>, Option<u64>, Option<Seq<char>>);

pub open spec fn opt_text(s: Option<String>) -> Option<Seq<char>> {
    match s {
        Some(t) => Some(t@),
        None => None,
    }
}

/// The fields of a parsed token reply.
pub open spec fn token_fields(reply: TokenReply) -> TokenFields {
    (opt_text(reply.access_token), reply.expires_in, opt_text(reply.refresh_token))
}

pub open spec fn token_view(reply: Option<TokenReply>) -> Option<TokenFields> {
    match reply {
        Some(r) => Some(token_fields(r)),
        None => None,
    }
}

/// What `serde_json` makes of a token endpoint reply body: `None` when the
/// body is not JSON; otherwise `access_token`, `expires_in` and
/// `refresh_token`, each `None` when missing or of another JSON type.
pub uninterp spec fn token_reply_fields(body: Seq<u8>) -> Option<TokenFields>;

/// Calls `serde_json::from_slice` into a `serde_json::Value` and reads the
/// reply's `access_token` (string), `expires_in` (unsigned integer) and
/// `refresh_token` (string). The contract claims only that the result is a
/// function of the body's bytes, named `token_reply_fields`.
#[verifier::external_body]
fn parse_token_reply(body: &[u8]) -> (r: Option<TokenReply>)
    ensures
        token_view(r) == token_reply_fields(body@),
{
    let v: serde_json::Value = serde_json::from_slice(body).ok()?;
    Some(TokenReply {
        access_token: v["access_token"].as_str().map(|t| t.to_owned()),
        expires_in: v["expires_in"].as_u64(),
        refresh_token: v["refresh_token"].as_str().map(|t| t.to_owned()),
    })
}

/// Lifetime granted by a reply.
pub open spec fn granted_secs(f: TokenFields) -> int {
    match f.1 {
        Some(e) => e as int,
        None => DEFAULT_EXPIRES_IN_SECS as int,
    }
}

/// `new` is `old` after applying a reply with fields `f` at time `now`: a
/// token present in the reply replaces the stored one, and the expiry is
/// `now` plus the granted lifetime.
pub open spec fn refreshed(old: SpotifyAuth, f: TokenFields, now: int, new: SpotifyAuth) -> bool {
    &&& new.access_token@ == (match f.0 {
        Some(t) => t,
        None => old.access_token@,
    })
    &&& new.refresh_token@ == (match f.2 {
        Some(t) => t,
        None => old.refresh_token@,
    })
    &&& new.expires_at_epoch_secs == now + granted_secs(f)
    &&& new.client_id == old.client_id
}

/// Outcome of applying a reply with fields `f` at time `now`: it is applied
/// exactly when the new expiry fits in `u64`, and otherwise nothing changes.
pub open spec fn refresh_outcome(
    old: SpotifyAuth,
    f: TokenFields,
    now: u64,
    applied: bool,
    new: SpotifyAuth,
) -> bool {
    &&& applied <==> now + granted_secs(f) <= u64::MAX
    &&& applied ==> refreshed(old, f, now as int, new)
    &&& !applied ==> new == old
}

impl SpotifyAuth {
    /// Whether the access token is expired, or expires within the margin,
    /// at time `now_epoch_secs`.
    pub fn is_expired_at(&self, now_epoch_secs: u64) -> (r: bool)
        ensures
            r == expired_at(self.expires_at_epoch_secs, now_epoch_secs as int),
            r <==> now_epoch_secs as int + 60 >= self.expires_at_epoch_secs as int,
    {
        now_epoch_secs >= self.expires_at_epoch_secs.saturating_sub(EXPIRY_MARGIN_SECS)
    }

    /// Whether the access token is expired, or expires within the margin,
    /// by the wall clock.
    pub fn is_expired(&self) -> (r: bool)
        ensures
            exists|now: u64| r == expired_at(self.expires_at_epoch_secs, now as int),
            self.expires_at_epoch_secs <= EXPIRY_MARGIN_SECS ==> r,
    {
        let now = unix_time_secs();
        self.is_expired_at(now)
    }

    /// Applies a token endpoint reply received at time `now_epoch_secs`.
    /// Returns false, leaving the credentials as they were, when the new
    /// expiry time would not fit in `u64`.
    pub fn apply_refresh_at(&mut self, reply: TokenReply, now_epoch_secs: u64) -> (applied: bool)
        ensures
            refresh_outcome(*old(self), token_fields(reply), now_epoch_secs, applied, *final(self)),
            applied <==> now_epoch_secs as int + (match reply.expires_in {
                Some(e) => e as int,
                None => 3600int,
            }) <= u64::MAX as int,
            applied ==> final(self).expires_at_epoch_secs as int == now_epoch_secs as int + (
            match reply.expires_in {
                Some(e) => e as int,
                None => 3600int,
            }),
            applied ==> (reply.access_token matches Some(t) ==> final(self).access_token@ == t@),
            applied ==> (reply.access_token is None ==> final(self).access_token@
                == old(self).access_token@),
            applied ==> (reply.refresh_token matches Some(t) ==> final(self).refresh_token@ == t@),
            applied ==> (reply.refresh_token is None ==> final(self).refresh_token@
                == old(self).refresh_token@),
            final(self).client_id == old(self).client_id,
            !applied ==> *final(self) == *old(self),
    {
        let expires_in = match reply.expires_in {
            Some(e) => e,
            None => DEFAULT_EXPIRES_IN_SECS,
        };
        if expires_in > u64::MAX - now_epoch_secs {
            return false;
        }
        if let Some(at) = reply.access_token {
            self.access_token = at;
        }
        self.expires_at_epoch_secs = now_epoch_secs + expires_in;
        if let Some(rt) = reply.refresh_token {
            self.refresh_token = rt;
        }
        true
    }

    /// Applies a token endpoint reply at the wall-clock time (see
    /// `apply_refresh_at`).
    pub fn apply_refresh(&mut self, reply: TokenReply) -> (applied: bool)
        ensures
            exists|now: u64|
                #[trigger] refresh_outcome(*old(self), token_fields(reply), now, applied, *final(self)),
    {
        let now = unix_time_secs();
        let ghost f = token_fields(reply);
        let applied = self.apply_refresh_at(reply, now);
        assert(refresh_outcome(*old(self), f, now, applied, *self));
        applied
    }

    /// Applies the body of a token endpoint reply at the wall-clock time.
    /// `None`, with the credentials unchanged, when the body does not parse;
    /// otherwise whether the reply was applied (see `apply_refresh_at`).
    pub fn apply_refresh_body(&mut self, body: &[u8]) -> (r: Option<bool>)
        ensures
            token_reply_fields(body@) is None ==> (r is None && *final(self) == *old(self)),
            token_reply_fields(body@) is Some ==> (r is Some && exists|now: u64|
                #[trigger] refresh_outcome(
                    *old(self),
                    token_reply_fields(body@).unwrap(),
                    now,
                    r.unwrap(),
                    *final(self),
                )),
    {
        match parse_token_reply(body) {
            Some(reply) => {
                let ghost f = token_fields(reply);
                let applied = self.apply_refresh(reply);
                proof {
                    let now = choose|now: u64| refresh_outcome(*old(self), f, now, applied, *self);
                    assert(token_reply_fields(body@).unwrap() == f);
                    assert(refresh_outcome(*old(self), token_reply_fields(body@).unwrap(), now, Some(applied).unwrap(), *self));
                }
                Some(applied)
            },
            None => None,
        }
    }
}

/// Expiry is monotone in time: a token expired at some time stays expired
/// at every later time.
pub proof fn lemma_expiry_monotone(expires_at: u64, t1: int, t2: int)
    requires
        t1 <= t2,
        expired_at(expires_at, t1),
    ensures
        expired_at(expires_at, t2),
{
}

/// The client id in use: the configured one when it is not empty, else the
/// one saved with the token (empty when none was saved).
pub open spec fn chosen_client_id(configured: Seq<char>, saved: Option<String>) -> Seq<char> {
    if configured.len() == 0 {
        match saved {
            Some(s) => s@,
            None => Seq::empty(),
        }
    } else {
        configured
    }
}

/// Picks the client id for token refreshes; `None` when there is none, in
/// which case polling cannot proceed.
pub fn choose_client_id(configured: &str, saved: &Option<String>) -> (r: Option<String>)
    ensures
        r is Some <==> chosen_client_id(configured@, *saved).len() > 0,
        r matches Some(c) ==> c@ == chosen_client_id(configured@, *saved),
{
    let chosen: String = if configured.is_empty() {
        match saved {
            Some(s) => s.clone(),
            None => String::new(),
        }
    } else {
        configured.to_owned()
    };
    if chosen.as_str().is_empty() {
        None
    } else {
        Some(chosen)
    }
}

/// The fields of a currently-playing reply that the poller uses; each is
/// `None` when the reply lacks it or holds it with another JSON type.
pub struct NowPlayingReply {
    pub currently_playing_type: Option<String>,
    pub item_id: Option<String>,
    pub progress_ms: Option<u64>,
    pub is_playing: Option<bool>,
}

/// HTTP status of a successful reply that carries no content.
pub const NO_CONTENT: u16 = 204;

/// A currently-playing reply's fields as mathematical values:
/// `currently_playing_type`, `item.id`, `progress_ms`, `is_playing`.
pub type NowPlayingFields = (Option<Seq<char>>, Option<Seq<char>>, Option<u64>, Option<bool>);

/// The fields of a parsed currently-playing reply.
pub open spec fn now_playing_view(reply: Option<NowPlayingReply>) -> Option<NowPlayingFields> {
    match reply {
        Some(r) => Some(
            (opt_text(r.currently_playing_type), opt_text(r.item_id), r.progress_ms, r.is_playing),
        ),
        None => None,
    }
}

/// What `serde_json` makes of a currently-playing reply body: `None` when
/// the body is not JSON; otherwise `currently_playing_type`, `item.id`,
/// `progress_ms` and `is_playing`, each `None` when missing or of another
/// JSON type.
pub uninterp spec fn now_playing_fields(body: Seq<u8>) -> Option<NowPlayingFields>;

/// Calls `serde_json::from_slice` into a `serde_json::Value` and reads the
/// reply's `currently_playing_type` (string), `item.id` (string),
/// `progress_ms` (unsigned integer) and `is_playing` (boolean). The
/// contract claims only that the result is a function of the body's bytes,
/// named `now_playing_fields`.
#[verifier::external_body]
fn parse_now_playing(body: &[u8]) -> (r: Option<NowPlayingReply>)
    ensures
        now_playing_view(r) == now_playing_fields(body@),
{
    let v: serde_json::Value = serde_json::from_slice(body).ok()?;
    Some(NowPlayingReply {
        currently_playing_type: v["currently_playing_type"].as_str().map(|t| t.to_owned()),
        item_id: v["item"]["id"].as_str().map(|t| t.to_owned()),
        progress_ms: v["progress_ms"].as_u64(),
        is_playing: v["is_playing"].as_bool(),
    })
}

/// The playing track a reply with status `status` and fields `fields`
/// describes, as `(track_id, progress_ms, is_playing)`: none for a
/// no-content reply, an unparsable body, a reply that is not about a track
/// or one without a track id. The progress is truncated to `u32`; a missing
/// progress counts as 0 and a missing playing flag as false.
pub open spec fn track_of(status: u16, fields: Option<NowPlayingFields>) -> Option<(Seq<char>, u32, bool)> {
    if status == NO_CONTENT {
        None
    } else {
        match fields {
            Some((kind, id, progress, playing)) => if kind == Some("track"@) && id is Some {
                Some(
                    (
                        id.unwrap(),
                        match progress {
                            Some(p) => p as u32,
                            None => 0u32,
                        },
                        match playing {
                            Some(b) => b,
                            None => false,
                        },
                    ),
                )
            } else {
                None
            },
            None => None,
        }
    }
}

pub open spec fn track_view(t: Option<(String, u32, bool)>) -> Option<(Seq<char>, u32, bool)> {
    match t {
        Some((id, p, b)) => Some((id@, p, b)),
        None => None,
    }
}

/// Reads `(track_id, progress_ms, is_playing)` out of a currently-playing
/// reply with HTTP status `status` (`reply` is `None` when its body did not
/// parse).
pub fn current_track(status: u16, reply: Option<NowPlayingReply>) -> (r: Option<(String, u32, bool)>)
    ensures
        track_view(r) == track_of(status, now_playing_view(reply)),
{
    if status == NO_CONTENT {
        return None;
    }
    let rep = match reply {
        Some(rep) => rep,
        None => return None,
    };
    let is_track = match &rep.currently_playing_type {
        Some(t) => same_text(t.as_str(), "track"),
        None => false,
    };
    if !is_track {
        return None;
    }
    let id = match rep.item_id {
        Some(id) => id,
        None => return None,
    };
    let progress: u32 = match rep.progress_ms {
        Some(p) => p as u32,
        None => 0,
    };
    let playing = match rep.is_playing {
        Some(b) => b,
        None => false,
    };
    Some((id, progress, playing))
}

/// Reads `(track_id, progress_ms, is_playing)` out of the body of a
/// currently-playing reply with HTTP status `status`; the body is not
/// parsed when the status says it has no content.
pub fn current_track_from_body(status: u16, body: &[u8]) -> (r: Option<(String, u32, bool)>)
    ensures
        track_view(r) == track_of(status, now_playing_fields(body@)),
{
    if status == NO_CONTENT {
        return None;
    }
    current_track(status, parse_now_playing(body))
}

/// What to do with a beatmap reply, by its HTTP status.
pub enum BeatmapReply {
    /// 200: decode the body.
    Decode,
    /// 404: the track has no beatmap.
    NotFound,
    /// Any other status.
    Unexpected,
}

/// Classifies a beatmap reply by its HTTP status.
pub fn classify_beatmap_reply(status: u16) -> (r: BeatmapReply)
    ensures
        (r is Decode) <==> status == 200,
        (r is NotFound) <==> status == 404,
        (r is Unexpected) <==> (status != 200 && status != 404),
{
    if status == 200 {
        BeatmapReply::Decode
    } else if status == 404 {
        BeatmapReply::NotFound
    } else {
        BeatmapReply::Unexpected
    }
}

/// Remembers the last track seen, so that a beatmap is fetched only when
/// the track changes.
pub struct TrackWatcher {
    pub last_track_id: Option<String>,
}

/// One observation of a playing track: the track remembered afterwards and
/// whether it counts as a change (and so calls for a beatmap fetch).
pub open spec fn track_step(last: Option<Seq<char>>, track: Seq<char>) -> (Option<Seq<char>>, bool) {
    if last == Some(track) {
        (last, false)
    } else {
        (Some(track), true)
    }
}

pub open spec fn remembered(last: Option<String>) -> Option<Seq<char>> {
    match last {
        Some(s) => Some(s@),
        None => None,
    }
}

impl TrackWatcher {
    pub fn new() -> (w: Self)
        ensures
            w.last_track_id is None,
    {
        TrackWatcher { last_track_id: None }
    }

    /// Nothing is playing; returns whether a track was playing before.
    pub fn playback_stopped(&mut self) -> (was_playing: bool)
        ensures
            was_playing == old(self).last_track_id is Some,
            final(self).last_track_id is None,
    {
        let was_playing = self.last_track_id.is_some();
        self.last_track_id = None;
        was_playing
    }

    /// `track_id` is playing; returns whether it differs from the last
    /// track seen (including when none was).
    pub fn track_seen(&mut self, track_id: &String) -> (changed: bool)
        ensures
            (remembered(final(self).last_track_id), changed) == track_step(
                remembered(old(self).last_track_id),
                track_id@,
            ),
    {
        let same = match &self.last_track_id {
            Some(last) => same_text(last.as_str(), track_id.as_str()),
            None => false,
        };
        if same {
            false
        } else {
            self.last_track_id = Some(track_id.clone());
            true
        }
    }
}

/// Seeing the same track twice in a row fetches its beatmap at most once:
/// the second observation is never a change.
pub proof fn lemma_same_track_fetched_once(last: Option<Seq<char>>, track: Seq<char>)
    ensures
        !track_step(track_step(last, track).0, track).1,
        track_step(last, track).0 == Some(track),
{
}

} // verus!
