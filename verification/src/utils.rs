//! Icon lookup for known players, metadata format helpers, and the status
//! renderer: composition of icon, scrolled text and position into one JSON
//! record, emitted only when it differs from the last emission.

use vstd::prelude::*;
use crate::text::{
    contains_seq, contains_chars, str_to_chars, chars_to_string, to_lowercase_str, lower_of,
    trim_seq, trim_chars, replace_seq, replace_chars, push_all, str_eq,
};
use crate::config::{Config, PositionMode};
use crate::player::{PlayerState, estimate_spec};
use crate::scroll::{ScrollState, advance_spec, scroll};
use crate::template::{format_collapsed_spec, format_collapsed};
use crate::mpris::{pos_text, format_position};
use crate::json::{json_record, json_status_line};

verus! {

/// The icon for a lowercased service name: the first matching substring of
/// the known-player table wins, and unknown services get the fallback
/// glyph.
pub open spec fn icon_for_spec(lower: Seq<char>) -> Seq<char> {
    if contains_seq(lower, "spotify"@) {
        "\u{f1bc}"@
    } else if contains_seq(lower, "vlc"@) {
        "\u{f057c}"@
    } else if contains_seq(lower, "edge"@) {
        "\u{f01e9}"@
    } else if contains_seq(lower, "firefox"@) {
        "\u{f0239}"@
    } else if contains_seq(lower, "mpv"@) {
        "\u{f36e}"@
    } else if contains_seq(lower, "chrome"@) {
        "\u{f268}"@
    } else if contains_seq(lower, "telegramdesktop"@) {
        "\u{e217}"@
    } else if contains_seq(lower, "tauon"@) {
        "\u{e271}"@
    } else {
        "\u{f001}"@
    }
}

/// Picks an icon that represents the service based on its name.
pub fn icon_for(service: &str) -> (r: &'static str)
    ensures
        r@ == icon_for_spec(lower_of(service@)),
{
    let lower = to_lowercase_str(service);
    let lchars = str_to_chars(lower.as_str());
    if contains_chars(&lchars, &str_to_chars("spotify")) {
        "\u{f1bc}"
    } else if contains_chars(&lchars, &str_to_chars("vlc")) {
        "\u{f057c}"
    } else if contains_chars(&lchars, &str_to_chars("edge")) {
        "\u{f01e9}"
    } else if contains_chars(&lchars, &str_to_chars("firefox")) {
        "\u{f0239}"
    } else if contains_chars(&lchars, &str_to_chars("mpv")) {
        "\u{f36e}"
    } else if contains_chars(&lchars, &str_to_chars("chrome")) {
        "\u{f268}"
    } else if contains_chars(&lchars, &str_to_chars("telegramdesktop")) {
        "\u{e217}"
    } else if contains_chars(&lchars, &str_to_chars("tauon")) {
        "\u{e271}"
    } else {
        "\u{f001}"
    }
}

/// The format template with each placeholder replaced by its trimmed field
/// and the result trimmed, with no collapsing of separators.
pub open spec fn format_metadata_spec(
    fmt: Seq<char>,
    title: Seq<char>,
    artist: Seq<char>,
    album: Seq<char>,
) -> Seq<char> {
    trim_seq(
        replace_seq(
            replace_seq(replace_seq(fmt, "{title}"@, trim_seq(title)), "{artist}"@, trim_seq(artist)),
            "{album}"@,
            trim_seq(album),
        ),
    )
}

/// Replaces the `{title}`, `{artist}` and `{album}` placeholders by the
/// trimmed fields and trims the result.
pub fn format_metadata(format: &str, title: &str, artist: &str, album: &str) -> (r: String)
    ensures
        r@ == format_metadata_spec(format@, title@, artist@, album@),
{
    proof {
        reveal_strlit("{title}");
        reveal_strlit("{artist}");
        reveal_strlit("{album}");
    }
    let fmtc = str_to_chars(format);
    let tv = trim_chars(&str_to_chars(title));
    let av = trim_chars(&str_to_chars(artist));
    let lv = trim_chars(&str_to_chars(album));
    let step1 = replace_chars(&fmtc, &str_to_chars("{title}"), &tv);
    let step2 = replace_chars(&step1, &str_to_chars("{artist}"), &av);
    let step3 = replace_chars(&step2, &str_to_chars("{album}"), &lv);
    chars_to_string(&trim_chars(&step3))
}

/// No metadata at all: title, artist and album are all empty.
pub open spec fn all_empty(ps: PlayerState) -> bool {
    ps.title@.len() == 0 && ps.artist@.len() == 0 && ps.album@.len() == 0
}

/// The icon block: the service icon (when the service is known and has
/// one) beside the play/pause glyph.
pub open spec fn icon_spec(ps: PlayerState) -> Seq<char> {
    let service_icon = match ps.service {
        Some(s) => icon_for_spec(lower_of(s@)),
        None => Seq::<char>::empty(),
    };
    let play_icon = if ps.playing {
        "\u{f04b}"@
    } else {
        "\u{f04c}"@
    };
    if service_icon.len() > 0 {
        service_icon + seq![' '] + play_icon
    } else {
        play_icon
    }
}

fn get_icon(ps: &PlayerState) -> (r: Vec<char>)
    ensures
        r@ == icon_spec(*ps),
{
    let service_icon: Vec<char> = match ps.get_service() {
        Some(s) => str_to_chars(icon_for(s)),
        None => Vec::new(),
    };
    let play_icon: &str = if ps.playing {
        "\u{f04b}"
    } else {
        "\u{f04c}"
    };
    if service_icon.len() > 0 {
        let mut out = service_icon;
        out.push(' ');
        push_all(&mut out, &str_to_chars(play_icon));
        proof {
            assert(out@ =~= icon_spec(*ps));
        }
        out
    } else {
        str_to_chars(play_icon)
    }
}

/// The text cut to the window width.
pub open spec fn truncated_spec(s: Seq<char>, width: int) -> Seq<char> {
    if s.len() <= width {
        s
    } else {
        s.subrange(0, width)
    }
}

fn truncate_chars(v: &Vec<char>, width: usize) -> (r: Vec<char>)
    ensures
        r@ == truncated_spec(v@, width as int),
{
    let n: usize = v.len();
    let limit: usize = if n <= width {
        n
    } else {
        width
    };
    let mut r: Vec<char> = Vec::new();
    let mut i: usize = 0;
    while i < limit
        invariant
            i <= limit,
            limit <= n,
            n == v@.len(),
            r@ == v@.subrange(0, i as int),
        decreases limit - i,
    {
        r.push(v[i]);
        i = i + 1;
        proof {
            assert(r@ =~= v@.subrange(0, i as int));
        }
    }
    proof {
        assert(r@ =~= truncated_spec(v@, width as int));
    }
    r
}

/// The scrolled text of one tick. A paused player with the freeze flag set
/// bypasses the scroll: the state returns to the origin and the text is
/// cut to the width. A text too long for the cyclic buffer to be addressed
/// is cut the same way, with the state left alone.
pub open spec fn scrolled_spec(
    cfg: Config,
    playing: bool,
    off: int,
    hold: int,
    last: Seq<char>,
    formatted: Seq<char>,
) -> (Seq<char>, int, int, Seq<char>) {
    if cfg.freeze_on_pause && !playing {
        (truncated_spec(formatted, cfg.width as int), 0, 0, last)
    } else if formatted.len() + 3 > usize::MAX {
        (truncated_spec(formatted, cfg.width as int), off, hold, last)
    } else {
        let s = advance_spec(formatted, off, hold, last, cfg.width as int, cfg.scroll_mode);
        (s.0, s.1, s.2, formatted)
    }
}

fn get_scrolled_text(config: &Config, playing: bool, scroll_state: &mut ScrollState, formatted: &str) -> (r:
    String)
    ensures
        ({
            let s = scrolled_spec(
                *config,
                playing,
                old(scroll_state).offset as int,
                old(scroll_state).hold as int,
                old(scroll_state).last_text@,
                formatted@,
            );
            &&& r@ == s.0
            &&& final(scroll_state).offset as int == s.1
            &&& final(scroll_state).hold as int == s.2
            &&& final(scroll_state).last_text@ == s.3
        }),
{
    if config.freeze_on_pause && !playing {
        scroll_state.offset = 0;
        scroll_state.hold = 0;
        chars_to_string(&truncate_chars(&str_to_chars(formatted), config.width))
    } else if formatted.unicode_len() > usize::MAX - 3 {
        chars_to_string(&truncate_chars(&str_to_chars(formatted), config.width))
    } else {
        scroll(formatted, scroll_state, config.width, config.scroll_mode)
    }
}

/// The position suffix: a space and the clock text of the estimated
/// position (or of the remaining time, clamped at zero, in that mode when
/// the length is known), or nothing when position display is off.
pub open spec fn position_suffix_spec(cfg: Config, ps: PlayerState, now: int) -> Seq<char> {
    if !cfg.position_enabled {
        Seq::<char>::empty()
    } else {
        let us = match cfg.position_mode {
            PositionMode::Increasing => estimate_spec(ps, now),
            PositionMode::Remaining => match ps.length {
                Some(len) => {
                    if len - estimate_spec(ps, now) >= 0 {
                        len - estimate_spec(ps, now)
                    } else {
                        0int
                    }
                },
                None => estimate_spec(ps, now),
            },
        };
        seq![' '] + pos_text(us)
    }
}

fn get_position_text(config: &Config, player_state: &PlayerState, now_us: i64) -> (r: Vec<char>)
    requires
        player_state.wf(),
        player_state.last_update matches Some(u) ==> u <= now_us,
    ensures
        r@ == position_suffix_spec(*config, *player_state, now_us as int),
{
    if !config.position_enabled {
        return Vec::new();
    }
    let est: i64 = player_state.estimate_position(now_us);
    let us: i64 = match config.position_mode {
        PositionMode::Increasing => est,
        PositionMode::Remaining => match &player_state.length {
            Some(len) => {
                if *len >= est {
                    *len - est
                } else {
                    0
                }
            },
            None => est,
        },
    };
    let text = format_position(us);
    let mut out: Vec<char> = Vec::new();
    out.push(' ');
    push_all(&mut out, &str_to_chars(text.as_str()));
    proof {
        assert(out@ =~= position_suffix_spec(*config, *player_state, now_us as int));
    }
    out
}

/// The line one render tick computes, with the scroll state it leaves
/// behind: the stopped record when there is no metadata at all; an empty
/// line when the scrolled text is blank; else the JSON record of the
/// composed text and the lowercased status class.
pub open spec fn render_line_spec(
    cfg: Config,
    ps: PlayerState,
    off: int,
    hold: int,
    last: Seq<char>,
    now: int,
) -> (Seq<char>, int, int, Seq<char>) {
    if all_empty(ps) {
        (json_record(Seq::<char>::empty(), "stopped"@), off, hold, last)
    } else {
        let formatted = format_collapsed_spec(cfg.format@, ps.title@, ps.artist@, ps.album@);
        let s = scrolled_spec(cfg, ps.playing, off, hold, last, formatted);
        if trim_seq(s.0).len() == 0 {
            (Seq::<char>::empty(), s.1, s.2, s.3)
        } else {
            let class = lower_of(ps.status@);
            let body = if class == "stopped"@ {
                Seq::<char>::empty()
            } else if cfg.no_icon {
                s.0 + position_suffix_spec(cfg, ps, now)
            } else {
                icon_spec(ps) + seq![' '] + s.0 + position_suffix_spec(cfg, ps, now)
            };
            (json_record(body, class), s.1, s.2, s.3)
        }
    }
}

/// What the dedup gate emits for a computed line: nothing when it equals
/// the last emission, else the line itself.
pub open spec fn emitted_for(line: Seq<char>, last_output: Seq<char>) -> Option<Seq<char>> {
    if line == last_output {
        None
    } else {
        Some(line)
    }
}

/// Renders the status line for the current player and returns it only if
/// it differs from the last output; `last_output` always holds the
/// computed line afterwards.
#[verifier::rlimit(50)]
pub fn render_status(
    config: &Config,
    player_state: &PlayerState,
    scroll_state: &mut ScrollState,
    last_output: &mut String,
    now_us: i64,
) -> (emitted: Option<String>)
    requires
        player_state.wf(),
        player_state.last_update matches Some(u) ==> u <= now_us,
    ensures
        final(scroll_state).offset as int == render_line_spec(
            *config,
            *player_state,
            old(scroll_state).offset as int,
            old(scroll_state).hold as int,
            old(scroll_state).last_text@,
            now_us as int,
        ).1,
        final(scroll_state).hold as int == render_line_spec(
            *config,
            *player_state,
            old(scroll_state).offset as int,
            old(scroll_state).hold as int,
            old(scroll_state).last_text@,
            now_us as int,
        ).2,
        final(scroll_state).last_text@ == render_line_spec(
            *config,
            *player_state,
            old(scroll_state).offset as int,
            old(scroll_state).hold as int,
            old(scroll_state).last_text@,
            now_us as int,
        ).3,
        final(last_output)@ == render_line_spec(
            *config,
            *player_state,
            old(scroll_state).offset as int,
            old(scroll_state).hold as int,
            old(scroll_state).last_text@,
            now_us as int,
        ).0,
        emitted matches Some(s) ==> s@ == render_line_spec(
            *config,
            *player_state,
            old(scroll_state).offset as int,
            old(scroll_state).hold as int,
            old(scroll_state).last_text@,
            now_us as int,
        ).0,
        (emitted is Some) == (emitted_for(
            render_line_spec(
                *config,
                *player_state,
                old(scroll_state).offset as int,
                old(scroll_state).hold as int,
                old(scroll_state).last_text@,
                now_us as int,
            ).0,
            old(last_output)@,
        ) is Some),
        all_empty(*player_state) ==> render_line_spec(
            *config,
            *player_state,
            old(scroll_state).offset as int,
            old(scroll_state).hold as int,
            old(scroll_state).last_text@,
            now_us as int,
        ).0 == json_record(Seq::<char>::empty(), "stopped"@),
{
    if player_state.title.as_str().is_empty() && player_state.artist.as_str().is_empty()
        && player_state.album.as_str().is_empty() {
        let empty_text: Vec<char> = Vec::new();
        proof {
            assert(empty_text@ =~= Seq::<char>::empty());
        }
        let line = json_status_line(&empty_text, &str_to_chars("stopped"));
        let line_s = chars_to_string(&line);
        if !str_eq(line_s.as_str(), last_output.as_str()) {
            *last_output = line_s.clone();
            return Some(line_s);
        } else {
            return None;
        }
    }
    let formatted = format_collapsed(
        config.format.as_str(),
        player_state.title.as_str(),
        player_state.artist.as_str(),
        player_state.album.as_str(),
    );
    let scrolled = get_scrolled_text(config, player_state.playing, scroll_state, formatted.as_str());
    let scrolled_chars = str_to_chars(scrolled.as_str());
    let trimmed = trim_chars(&scrolled_chars);
    if trimmed.len() == 0 {
        if !last_output.as_str().is_empty() {
            *last_output = String::new();
            return Some(String::new());
        } else {
            proof {
                assert(last_output@ =~= Seq::<char>::empty());
            }
            return None;
        }
    }
    let class = to_lowercase_str(player_state.status.as_str());
    let body: Vec<char> = if str_eq(class.as_str(), "stopped") {
        Vec::new()
    } else if config.no_icon {
        let mut b = scrolled_chars;
        push_all(&mut b, &get_position_text(config, player_state, now_us));
        b
    } else {
        let mut b = get_icon(player_state);
        b.push(' ');
        push_all(&mut b, &scrolled_chars);
        push_all(&mut b, &get_position_text(config, player_state, now_us));
        proof {
            assert(b@ =~= icon_spec(*player_state) + seq![' '] + scrolled@ + position_suffix_spec(
                *config,
                *player_state,
                now_us as int,
            ));
        }
        b
    };
    let line = json_status_line(&body, &str_to_chars(class.as_str()));
    let line_s = chars_to_string(&line);
    if !str_eq(line_s.as_str(), last_output.as_str()) {
        *last_output = line_s.clone();
        Some(line_s)
    } else {
        None
    }
}

/// With no metadata at all, the computed line is the stopped record,
/// whatever the configuration, the scroll state and the clock say.
pub proof fn lemma_all_empty_stopped(
    cfg: Config,
    ps: PlayerState,
    off: int,
    hold: int,
    last: Seq<char>,
    now: int,
)
    requires
        all_empty(ps),
    ensures
        render_line_spec(cfg, ps, off, hold, last, now).0 == json_record(
            Seq::<char>::empty(),
            "stopped"@,
        ),
{
}

/// The dedup gate compares the rendered lines alone: when two consecutive
/// ticks compute textually identical lines, the second emits nothing, even
/// though the scroll state may have advanced in between.
pub proof fn lemma_identical_lines_suppressed(
    cfg1: Config,
    ps1: PlayerState,
    cfg2: Config,
    ps2: PlayerState,
    off: int,
    hold: int,
    last: Seq<char>,
    now1: int,
    now2: int,
)
    requires
        ({
            let r1 = render_line_spec(cfg1, ps1, off, hold, last, now1);
            let r2 = render_line_spec(cfg2, ps2, r1.1, r1.2, r1.3, now2);
            r2.0 == r1.0
        }),
    ensures
        ({
            let r1 = render_line_spec(cfg1, ps1, off, hold, last, now1);
            let r2 = render_line_spec(cfg2, ps2, r1.1, r1.2, r1.3, now2);
            emitted_for(r2.0, r1.0) is None
        }),
{
}

} // verus!
