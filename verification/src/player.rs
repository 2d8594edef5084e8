//! Player state: the metadata snapshot of the current track together with
//! the playback-position cache, and the estimator that extrapolates the
//! position from a monotonic clock between authoritative updates.
//!
//! All positions, lengths and timestamps are in microseconds; timestamps
//! come from a monotonic clock owned by the caller.

use vstd::prelude::*;
use crate::text::str_eq;

verus! {

/// Metadata of one track.
#[derive(Debug, Clone)]
pub struct TrackMetadata {
    pub title: String,
    pub artist: String,
    pub album: String,
    pub length: Option<i64>,
}

/// Field-by-field equality of two metadata snapshots.
pub open spec fn meta_eq(a: TrackMetadata, b: TrackMetadata) -> bool {
    &&& a.title@ == b.title@
    &&& a.artist@ == b.artist@
    &&& a.album@ == b.album@
    &&& a.length == b.length
}

impl PartialEq for TrackMetadata {
    fn eq(&self, other: &Self) -> (r: bool) {
        self.title == other.title && self.artist == other.artist && self.album == other.album
            && match (&self.length, &other.length) {
            (Some(a), Some(b)) => *a == *b,
            (None, None) => true,
            _ => false,
        }
    }
}

impl vstd::std_specs::cmp::PartialEqSpecImpl for TrackMetadata {
    open spec fn obeys_eq_spec() -> bool {
        true
    }

    open spec fn eq_spec(&self, other: &Self) -> bool {
        meta_eq(*self, *other)
    }
}

impl Default for TrackMetadata {
    /// An empty snapshot: no title, artist, album or length.
    fn default() -> (d: Self)
        ensures
            d.title@ == Seq::<char>::empty(),
            d.artist@ == Seq::<char>::empty(),
            d.album@ == Seq::<char>::empty(),
            d.length is None,
    {
        TrackMetadata { title: String::new(), artist: String::new(), album: String::new(), length: None }
    }
}

/// State of the observed player, mutated in place on each authoritative
/// update.
#[derive(Debug)]
pub struct PlayerState {
    pub title: String,
    pub artist: String,
    pub album: String,
    pub playing: bool,
    pub status: String,
    pub position: i64,
    pub err: Option<String>,
    pub last_position: i64,
    pub last_update: Option<i64>,
    pub length: Option<i64>,
    pub service: Option<String>,
}

impl PlayerState {
    /// Positions and timestamps are nonnegative microsecond counts.
    pub open spec fn wf(&self) -> bool {
        &&& self.position >= 0
        &&& self.last_position >= 0
        &&& (self.last_update matches Some(u) ==> u >= 0)
        &&& (self.length matches Some(l) ==> l >= 0)
    }
}

impl Default for PlayerState {
    /// The absent-player state: everything empty, nothing playing.
    fn default() -> (d: Self)
        ensures
            d.title@ == Seq::<char>::empty(),
            d.artist@ == Seq::<char>::empty(),
            d.album@ == Seq::<char>::empty(),
            !d.playing,
            d.status@ == Seq::<char>::empty(),
            d.position == 0,
            d.err is None,
            d.last_position == 0,
            d.last_update is None,
            d.length is None,
            d.service is None,
            d.wf(),
    {
        PlayerState {
            title: String::new(),
            artist: String::new(),
            album: String::new(),
            playing: false,
            status: String::new(),
            position: 0,
            err: None,
            last_position: 0,
            last_update: None,
            length: None,
            service: None,
        }
    }
}

/// The estimated playback position at clock reading `now`: the cached
/// position verbatim while not playing or never anchored, else the cached
/// position advanced by the time elapsed since the anchor (saturating at
/// the numeric limit).
pub open spec fn estimate_spec(s: PlayerState, now: int) -> int {
    if s.playing && s.last_update is Some {
        let sum = s.last_position + (now - s.last_update->0);
        if sum > i64::MAX {
            i64::MAX as int
        } else {
            sum
        }
    } else {
        s.last_position as int
    }
}

impl PlayerState {
    /// Adopts a fresh metadata snapshot and re-anchors the position cache
    /// at zero.
    pub fn update_from_metadata(&mut self, meta: &TrackMetadata, now_us: i64)
        requires
            now_us >= 0,
            old(self).wf(),
        ensures
            final(self).title@ == meta.title@,
            final(self).artist@ == meta.artist@,
            final(self).album@ == meta.album@,
            final(self).length == meta.length,
            final(self).position == 0,
            final(self).err is None,
            final(self).last_position == 0,
            final(self).last_update == Some(now_us),
            final(self).playing == old(self).playing,
            final(self).status@ == old(self).status@,
            final(self).service == old(self).service,
            (meta.length matches Some(l) ==> l >= 0) ==> final(self).wf(),
    {
        self.title = meta.title.clone();
        self.artist = meta.artist.clone();
        self.album = meta.album.clone();
        self.length = match &meta.length {
            Some(l) => Some(*l),
            None => None,
        };
        self.position = 0;
        self.err = None;
        self.last_position = 0;
        self.last_update = Some(now_us);
    }

    /// Records which service the state describes.
    pub fn set_service(&mut self, service: &str)
        ensures
            final(self).service matches Some(s) && s@ == service@,
            final(self).title == old(self).title,
            final(self).artist == old(self).artist,
            final(self).album == old(self).album,
            final(self).playing == old(self).playing,
            final(self).status == old(self).status,
            final(self).position == old(self).position,
            final(self).err == old(self).err,
            final(self).last_position == old(self).last_position,
            final(self).last_update == old(self).last_update,
            final(self).length == old(self).length,
            old(self).wf() ==> final(self).wf(),
    {
        self.service = Some(service.to_owned());
    }

    /// The recorded service, if any.
    pub fn get_service(&self) -> (r: Option<&str>)
        ensures
            match r {
                Some(s) => self.service matches Some(v) && s@ == v@,
                None => self.service is None,
            },
    {
        match &self.service {
            Some(s) => Some(s.as_str()),
            None => None,
        }
    }

    /// Adopts an authoritative playback status and position sample:
    /// `playing` becomes true exactly for the raw status "Playing", and the
    /// position cache is re-anchored at `position`.
    pub fn update_playback_dbus(&mut self, playback_status: String, position: i64, now_us: i64)
        requires
            position >= 0,
            now_us >= 0,
            old(self).wf(),
        ensures
            final(self).playing == (playback_status@ == "Playing"@),
            final(self).status@ == playback_status@,
            final(self).last_position == position,
            final(self).position == position,
            final(self).last_update == Some(now_us),
            final(self).title == old(self).title,
            final(self).artist == old(self).artist,
            final(self).album == old(self).album,
            final(self).err == old(self).err,
            final(self).length == old(self).length,
            final(self).service == old(self).service,
            final(self).wf(),
    {
        self.playing = str_eq(playback_status.as_str(), "Playing");
        self.status = playback_status;
        self.last_position = position;
        self.last_update = Some(now_us);
        self.position = position;
    }

    /// The estimated position at clock reading `now_us`.
    pub fn estimate_position(&self, now_us: i64) -> (r: i64)
        requires
            self.wf(),
            self.last_update matches Some(u) ==> u <= now_us,
        ensures
            r == estimate_spec(*self, now_us as int),
            r >= 0,
    {
        if self.playing {
            if let Some(u) = self.last_update {
                let elapsed: i64 = now_us - u;
                return match self.last_position.checked_add(elapsed) {
                    Some(v) => v,
                    None => i64::MAX,
                };
            }
        }
        self.last_position
    }

    /// Whether the given metadata names a different track than this state.
    pub fn has_changed(&self, meta: &TrackMetadata) -> (r: bool)
        ensures
            r == !(self.title@ == meta.title@ && self.artist@ == meta.artist@ && self.album@
                == meta.album@),
    {
        !str_eq(self.title.as_str(), meta.title.as_str()) || !str_eq(
            self.artist.as_str(),
            meta.artist.as_str(),
        ) || !str_eq(self.album.as_str(), meta.album.as_str())
    }

    /// Authoritative re-anchor of the position cache, leaving the metadata
    /// untouched.
    pub fn reset_position_cache(&mut self, position: i64, now_us: i64)
        requires
            position >= 0,
            now_us >= 0,
            old(self).wf(),
        ensures
            final(self).last_position == position,
            final(self).last_update == Some(now_us),
            final(self).position == position,
            final(self).title == old(self).title,
            final(self).artist == old(self).artist,
            final(self).album == old(self).album,
            final(self).playing == old(self).playing,
            final(self).status == old(self).status,
            final(self).err == old(self).err,
            final(self).length == old(self).length,
            final(self).service == old(self).service,
            final(self).wf(),
    {
        self.last_position = position;
        self.last_update = Some(now_us);
        self.position = position;
    }
}

/// While not playing, or before any anchor, the estimate is exactly the
/// cached position, whatever the clock says.
pub proof fn lemma_estimate_paused(s: PlayerState, now: int)
    requires
        !s.playing || s.last_update is None,
    ensures
        estimate_spec(s, now) == s.last_position,
{
}

/// While playing, the estimate strictly increases with the clock between
/// re-anchors, as long as the sum stays within the numeric range.
pub proof fn lemma_estimate_strictly_increases(s: PlayerState, n1: i64, n2: i64)
    requires
        s.wf(),
        s.playing,
        s.last_update matches Some(u) && u <= n1 && n1 < n2,
        s.last_position + (n2 - s.last_update->0) <= i64::MAX,
    ensures
        estimate_spec(s, n1 as int) < estimate_spec(s, n2 as int),
{
}

} // verus!
