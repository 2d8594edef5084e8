//! Snapshot of one media player as read from its property interface, and
//! the rendering of playback positions as clock text.

use vstd::prelude::*;
use crate::text::{pad2, push_pad2, chars_to_string, str_to_chars, str_eq, to_lowercase_str, lower_of};
use crate::template::{format_collapsed_spec, format_collapsed};
use crate::utils::{icon_for, icon_for_spec};

verus! {

/// Mode for displaying track position.
#[derive(Debug, PartialEq, Eq, Structural, Clone, Copy)]
pub enum PositionMode {
    /// Show elapsed time
    Increasing,
    /// Show remaining time
    Remaining,
}

/// Clock text for a nonnegative number of microseconds: `MM:SS` under one
/// hour, `HH:MM:SS` from one hour up, every field zero-padded to two
/// digits.
pub open spec fn pos_text(microseconds: int) -> Seq<char>
    recommends
        microseconds >= 0,
{
    let total = microseconds / 1000000;
    if total >= 3600 {
        pad2((total / 3600) as nat) + seq![':'] + pad2(((total % 3600) / 60) as nat) + seq![':']
            + pad2((total % 60) as nat)
    } else {
        pad2((total / 60) as nat) + seq![':'] + pad2((total % 60) as nat)
    }
}

/// Formats time (in microseconds) to a mm:ss or hh:mm:ss string.
pub fn format_position(microseconds: i64) -> (r: String)
    requires
        microseconds >= 0,
    ensures
        r@ == pos_text(microseconds as int),
{
    let total: u64 = (microseconds as u64) / 1_000_000;
    let mut out: Vec<char> = Vec::new();
    if total >= 3600 {
        push_pad2(&mut out, total / 3600);
        out.push(':');
        push_pad2(&mut out, (total % 3600) / 60);
        out.push(':');
        push_pad2(&mut out, total % 60);
    } else {
        push_pad2(&mut out, total / 60);
        out.push(':');
        push_pad2(&mut out, total % 60);
    }
    proof {
        assert(out@ =~= pos_text(microseconds as int));
    }
    chars_to_string(&out)
}

/// Returns a suitable playback status indicator.
pub fn status_indicator(status: &str) -> (r: &'static str)
    ensures
        r@ == status_indicator_spec(status@),
{
    if str_eq(status, "playing") {
        "\u{f04b}"
    } else if str_eq(status, "paused") {
        "\u{f04c}"
    } else {
        ""
    }
}

/// The indicator glyph for a lowercase playback status.
pub open spec fn status_indicator_spec(status: Seq<char>) -> Seq<char> {
    if status == "playing"@ {
        "\u{f04b}"@
    } else if status == "paused"@ {
        "\u{f04c}"@
    } else {
        ""@
    }
}

/// Metadata and playback state for a player.
#[derive(Debug, Clone)]
pub struct MprisPlayer {
    pub service: String,
    pub playback_status: String,
    pub title: Option<String>,
    pub artist: Option<String>,
    pub album: Option<String>,
    pub position: Option<i64>,
    pub length: Option<i64>,
}

impl MprisPlayer {
    /// Position and length are nonnegative microsecond counts.
    pub open spec fn wf(&self) -> bool {
        &&& (self.position matches Some(p) ==> p >= 0)
        &&& (self.length matches Some(l) ==> l >= 0)
    }
}

/// The position text of a player snapshot: remaining time (clamped at
/// zero) when that mode is chosen and the length is known, elapsed time
/// otherwise, and nothing when no position was read.
pub open spec fn player_position_spec(p: MprisPlayer, mode: PositionMode) -> Seq<char> {
    match (p.position, p.length) {
        (Some(pos), Some(len)) => {
            if mode == PositionMode::Remaining {
                pos_text(if len >= pos { len - pos } else { 0 })
            } else {
                pos_text(pos as int)
            }
        },
        (Some(pos), None) => pos_text(pos as int),
        _ => Seq::<char>::empty(),
    }
}

/// The formatted metadata of a player snapshot: empty when stopped, else
/// the format template collapsed over the trimmed optional fields.
pub open spec fn player_metadata_spec(p: MprisPlayer, fmt: Seq<char>) -> Seq<char> {
    if lower_of(p.playback_status@) == "stopped"@ {
        Seq::<char>::empty()
    } else {
        format_collapsed_spec(
            fmt,
            match p.title {
                Some(t) => t@,
                None => Seq::<char>::empty(),
            },
            match p.artist {
                Some(a) => a@,
                None => Seq::<char>::empty(),
            },
            match p.album {
                Some(a) => a@,
                None => Seq::<char>::empty(),
            },
        )
    }
}

/// The icon-and-class pair of a player snapshot: an empty icon for a
/// stopped player, else the service icon beside the status indicator.
pub open spec fn icon_and_status_spec(p: MprisPlayer) -> (Seq<char>, Seq<char>) {
    let lower = lower_of(p.playback_status@);
    if lower == "stopped"@ {
        (Seq::<char>::empty(), lower)
    } else {
        (icon_for_spec(lower_of(p.service@)) + seq![' '] + status_indicator_spec(lower), lower)
    }
}

impl MprisPlayer {
    /// Format metadata using a custom string.
    pub fn formatted_metadata(&self, fmt: &str) -> (r: String)
        ensures
            r@ == player_metadata_spec(*self, fmt@),
    {
        let lower = to_lowercase_str(self.playback_status.as_str());
        if str_eq(lower.as_str(), "stopped") {
            return String::new();
        }
        let title: &str = match &self.title {
            Some(t) => t.as_str(),
            None => "",
        };
        let artist: &str = match &self.artist {
            Some(a) => a.as_str(),
            None => "",
        };
        let album: &str = match &self.album {
            Some(a) => a.as_str(),
            None => "",
        };
        proof {
            reveal_strlit("");
            assert(""@ =~= Seq::<char>::empty());
        }
        format_collapsed(fmt, title, artist, album)
    }

    /// Get formatted position string.
    pub fn get_position(&self, mode: PositionMode) -> (r: String)
        requires
            self.wf(),
        ensures
            r@ == player_position_spec(*self, mode),
    {
        match (&self.position, &self.length) {
            (Some(pos), Some(len)) => {
                if mode == PositionMode::Remaining {
                    let remaining: i64 = if *len >= *pos {
                        *len - *pos
                    } else {
                        0
                    };
                    format_position(remaining)
                } else {
                    format_position(*pos)
                }
            },
            (Some(pos), _) => format_position(*pos),
            _ => String::new(),
        }
    }

    /// Get icon and status string.
    pub fn icon_and_status(&self) -> (r: (String, String))
        ensures
            r.0@ == icon_and_status_spec(*self).0,
            r.1@ == icon_and_status_spec(*self).1,
    {
        let status_lower = to_lowercase_str(self.playback_status.as_str());
        if str_eq(status_lower.as_str(), "stopped") {
            return (String::new(), status_lower);
        }
        let mut icon: Vec<char> = str_to_chars(icon_for(self.service.as_str()));
        icon.push(' ');
        let indicator = str_to_chars(status_indicator(status_lower.as_str()));
        let mut i: usize = 0;
        let m: usize = indicator.len();
        while i < m
            invariant
                i <= m,
                m == indicator@.len(),
                icon@ == icon_for_spec(lower_of(self.service@)) + seq![' '] + indicator@.subrange(
                    0,
                    i as int,
                ),
        decreases m - i,
        {
            icon.push(indicator[i]);
            i = i + 1;
            proof {
                assert(icon@ =~= icon_for_spec(lower_of(self.service@)) + seq![' ']
                    + indicator@.subrange(0, i as int));
            }
        }
        proof {
            assert(icon@ =~= icon_and_status_spec(*self).0);
        }
        (chars_to_string(&icon), status_lower)
    }
}

} // verus!
