//! Run configuration: display width, scroll and position modes, format
//! template, icon flags, and the derived tick delay.

use vstd::prelude::*;
use crate::text::{lower_of, trim_seq, trim_chars, str_to_chars, chars_to_string, to_lowercase_str};

pub use crate::scroll::ScrollMode;

verus! {

/// Position display mode for track time.
#[derive(Debug, Clone, Copy, PartialEq, Eq, Structural)]
pub enum PositionMode {
    /// Show increasing time (elapsed)
    Increasing,
    /// Show remaining time
    Remaining,
}

/// Configuration consumed by the renderer; parsing the command line and
/// filling this in is the caller's business.
#[derive(Debug, Clone)]
pub struct Config {
    /// Scroll speed (0: slow=1000ms, 100: fast=100ms)
    pub speed: u32,
    /// Maximum width for the scrolling text
    pub width: usize,
    /// Blocked players, each entry trimmed, lowercased and nonempty
    pub blocked: Vec<String>,
    /// Scrolling behavior
    pub scroll_mode: ScrollMode,
    /// Metadata format string
    pub format: String,
    /// Show track time info
    pub position_enabled: bool,
    /// Disable icon in output
    pub no_icon: bool,
    /// Position style
    pub position_mode: PositionMode,
    /// Freeze scrolling and reset text when paused
    pub freeze_on_pause: bool,
    /// Delay in milliseconds (from speed)
    pub delay: u64,
    /// Disable status icon
    pub no_status_icon: bool,
}

/// The tick delay derived from the speed scale: a 0 maps to one second, a
/// 100 to the floor of one hundred milliseconds.
pub open spec fn delay_spec(speed: int) -> int {
    let base = if 9 * speed > 1000 {
        0int
    } else {
        1000 - 9 * speed
    };
    if base < 100 {
        100int
    } else {
        base
    }
}

/// Computes the tick delay in milliseconds from the 0-100 speed scale.
pub fn delay_from_speed(speed: u32) -> (d: u64)
    ensures
        d == delay_spec(speed as int),
        100 <= d <= 1000,
{
    let prod: u64 = (speed as u64) * 9;
    let base: u64 = if prod > 1000 {
        0
    } else {
        1000 - prod
    };
    if base < 100 {
        100
    } else {
        base
    }
}

/// The block list normalized: each entry trimmed then lowercased, empty
/// results dropped, order kept.
pub open spec fn normalize_blocked_spec(items: Seq<Seq<char>>) -> Seq<Seq<char>>
    decreases items.len(),
{
    if items.len() == 0 {
        Seq::<Seq<char>>::empty()
    } else {
        let v = lower_of(trim_seq(items[0]));
        let rest = normalize_blocked_spec(items.drop_first());
        if v.len() > 0 {
            seq![v] + rest
        } else {
            rest
        }
    }
}

/// The character sequences of a list of strings.
pub open spec fn views_of(items: Seq<String>) -> Seq<Seq<char>> {
    items.map(|i: int, s: String| s@)
}

/// Normalizes a block list: trims and lowercases each entry and drops the
/// empty ones.
pub fn normalize_blocked(blocked: &Vec<String>) -> (r: Vec<String>)
    ensures
        views_of(r@) == normalize_blocked_spec(views_of(blocked@)),
{
    let n: usize = blocked.len();
    let mut r: Vec<String> = Vec::new();
    let mut i: usize = 0;
    proof {
        assert(views_of(blocked@).skip(0) =~= views_of(blocked@));
    }
    while i < n
        invariant
            i <= n,
            n == blocked@.len(),
            normalize_blocked_spec(views_of(blocked@)) == views_of(r@) + normalize_blocked_spec(
                views_of(blocked@).skip(i as int),
            ),
        decreases n - i,
    {
        let ghost rest = views_of(blocked@).skip(i as int);
        proof {
            assert(rest[0] == blocked@[i as int]@);
            assert(rest.drop_first() =~= views_of(blocked@).skip(i as int + 1));
        }
        let trimmed = trim_chars(&str_to_chars(blocked[i].as_str()));
        let lowered = to_lowercase_str(chars_to_string(&trimmed).as_str());
        if lowered.as_str().unicode_len() > 0 {
            let ghost old_r = r@;
            r.push(lowered);
            proof {
                assert(views_of(r@) =~= views_of(old_r).push(lower_of(trim_seq(blocked@[i as int]@))));
                assert(views_of(r@) + normalize_blocked_spec(rest.drop_first())
                    =~= views_of(old_r) + normalize_blocked_spec(rest));
            }
        }
        i = i + 1;
    }
    proof {
        assert(views_of(blocked@).skip(n as int) =~= Seq::<Seq<char>>::empty());
        assert(views_of(r@) =~= normalize_blocked_spec(views_of(blocked@)));
    }
    r
}

} // verus!
