//! Text-scrolling state machines: a wrapping (cyclic) mode and a reset
//! (hold-and-restart) mode, plus a combined dispatcher over both.

use vstd::prelude::*;
use crate::text::{str_to_chars, chars_to_string, str_eq};

verus! {

/// Number of cycles to hold at the start/end in reset mode.
pub const RESET_HOLD: usize = 2;

/// State for wrapping scroll mode.
pub struct WrappingState {
    pub offset: usize,
    pub last_text: String,
}

/// State for reset scroll mode.
pub struct ResetState {
    pub offset: usize,
    pub hold: usize,
    pub last_text: String,
}

/// State for a display context that may use either scroll mode; `hold` is
/// unused in wrapping mode.
pub struct ScrollState {
    pub offset: usize,
    pub hold: usize,
    pub last_text: String,
}

/// Scrolling behavior.
#[derive(Debug, Clone, Copy, PartialEq, Eq, Structural)]
pub enum ScrollMode {
    Wrapping,
    Reset,
}

/// The text with the three-space separator appended, forming the cyclic
/// buffer of wrapping mode.
pub open spec fn wrap_padded(text: Seq<char>) -> Seq<char> {
    text + seq![' ', ' ', ' ']
}

/// The window of `width` characters read cyclically from the padded buffer,
/// starting at `offset`.
pub open spec fn wrap_frame(text: Seq<char>, offset: int, width: int) -> Seq<char>
    recommends
        width >= 0,
{
    Seq::new(width as nat, |i: int| wrap_padded(text)[(offset + i) % (wrap_padded(text).len() as int)])
}

/// The offset for the next wrapping tick.
pub open spec fn wrap_next_offset(offset: int, text_len: int) -> int {
    (offset + 1) % (text_len + 3)
}

/// One tick of reset mode from a clamped offset: dwell at either endpoint
/// for `RESET_HOLD` extra cycles, advance by one in between, and restart at
/// the origin after the dwell at the far end.
pub open spec fn reset_step(offset: int, hold: int, max_off: int) -> (int, int)
    recommends
        0 <= offset <= max_off,
        1 <= max_off,
{
    if offset == 0 || offset == max_off {
        if hold < RESET_HOLD {
            (offset, hold + 1)
        } else {
            if offset == max_off {
                (0, 0)
            } else {
                (offset + 1, 0)
            }
        }
    } else {
        (offset + 1, hold)
    }
}

/// Frame and next state of one scroll tick, after any text-change reset has
/// already been applied to `off0`/`hold0`.
pub open spec fn scroll_spec(text: Seq<char>, off0: int, hold0: int, width: int, mode: ScrollMode) -> (Seq<
    char,
>, int, int) {
    if text.len() <= width {
        (text, off0, hold0)
    } else if mode == ScrollMode::Wrapping {
        (wrap_frame(text, off0, width), wrap_next_offset(off0, text.len() as int), hold0)
    } else {
        let max_off = text.len() - width;
        let o = if off0 > max_off { max_off as int } else { off0 };
        let stepped = reset_step(o, hold0, max_off as int);
        (text.subrange(o, o + width), stepped.0, stepped.1)
    }
}

/// Frame and next state of one scroll tick, including the reset to the
/// origin that a change of text forces first.
pub open spec fn advance_spec(
    text: Seq<char>,
    off_in: int,
    hold_in: int,
    last_text: Seq<char>,
    width: int,
    mode: ScrollMode,
) -> (Seq<char>, int, int) {
    let off0 = if text != last_text { 0int } else { off_in };
    let hold0 = if text != last_text { 0int } else { hold_in };
    scroll_spec(text, off0, hold0, width, mode)
}

/// A text that already fits the window is returned unchanged, and a scroll
/// state that was computed against that same text is left exactly as it was.
pub proof fn lemma_fit_no_scroll(
    text: Seq<char>,
    off: int,
    hold: int,
    last: Seq<char>,
    width: int,
    mode: ScrollMode,
)
    requires
        text.len() <= width,
        last == text,
    ensures
        advance_spec(text, off, hold, last, width, mode) == (text, off, hold),
{
}

/// Changing the text restarts the scroll: the tick behaves exactly as it
/// would from a fresh state at the origin, whatever the state held before.
pub proof fn lemma_text_change_restarts(
    text: Seq<char>,
    off: int,
    hold: int,
    last: Seq<char>,
    width: int,
    mode: ScrollMode,
)
    requires
        text != last,
    ensures
        advance_spec(text, off, hold, last, width, mode) == advance_spec(text, 0, 0, text, width, mode),
{
}

/// The offset reached after `t` wrapping ticks on a fixed text, starting
/// from a fresh state.
pub open spec fn wrap_run_offset(text: Seq<char>, width: int, t: nat) -> int
    decreases t,
{
    if t == 0 {
        0
    } else {
        scroll_spec(text, wrap_run_offset(text, width, (t - 1) as nat), 0, width, ScrollMode::Wrapping).1
    }
}

/// The frame produced at tick `t` of that run.
pub open spec fn wrap_run_frame(text: Seq<char>, width: int, t: nat) -> Seq<char> {
    scroll_spec(text, wrap_run_offset(text, width, t), 0, width, ScrollMode::Wrapping).0
}

proof fn lemma_wrap_run_offset(text: Seq<char>, width: int, t: nat)
    requires
        0 <= width < text.len(),
    ensures
        wrap_run_offset(text, width, t) == t % (text.len() + 3),
    decreases t,
{
    let l = text.len() + 3;
    if t == 0 {
        vstd::arithmetic::div_mod::lemma_small_mod(0, l as nat);
    } else {
        lemma_wrap_run_offset(text, width, (t - 1) as nat);
        lemma_mod_shift((t - 1) as int, 1, l as int);
    }
}

/// Wrapping mode is periodic with period `len(text) + 3`: the frame at tick
/// `t` equals the frame at tick `t mod (len(text) + 3)`.
pub proof fn lemma_wrapping_period(text: Seq<char>, width: int, t: nat)
    requires
        0 <= width < text.len(),
    ensures
        wrap_run_frame(text, width, t) == wrap_run_frame(
            text,
            width,
            (t % (text.len() + 3)) as nat,
        ),
{
    let l = text.len() + 3;
    lemma_wrap_run_offset(text, width, t);
    lemma_wrap_run_offset(text, width, (t % l) as nat);
    vstd::arithmetic::div_mod::lemma_mod_twice(t as int, l as int);
}

/// The reset-mode state reached after `t` ticks on a fixed window, starting
/// from a fresh state at the origin.
pub open spec fn reset_run(max_off: int, t: nat) -> (int, int)
    decreases t,
{
    if t == 0 {
        (0, 0)
    } else {
        let prev = reset_run(max_off, (t - 1) as nat);
        reset_step(prev.0, prev.1, max_off)
    }
}

/// The reset-mode offset never leaves the window range, and the dwell
/// counter never exceeds its threshold.
pub proof fn lemma_reset_run_in_range(max_off: int, t: nat)
    requires
        max_off >= 1,
    ensures
        0 <= reset_run(max_off, t).0 <= max_off,
        0 <= reset_run(max_off, t).1 <= RESET_HOLD,
    decreases t,
{
    if t > 0 {
        lemma_reset_run_in_range(max_off, (t - 1) as nat);
    }
}

/// The reset-mode offset never jumps past an endpoint: each tick it either
/// dwells at an endpoint, advances by one, or restarts at the origin from
/// the far end.
pub proof fn lemma_reset_never_jumps(max_off: int, t: nat)
    requires
        max_off >= 1,
    ensures
        ({
            let o = reset_run(max_off, t).0;
            let o2 = reset_run(max_off, t + 1).0;
            ||| (o2 == o && (o == 0 || o == max_off))
            ||| o2 == o + 1
            ||| (o == max_off && o2 == 0)
        }),
{
    lemma_reset_run_in_range(max_off, t);
}

/// The exact states of one full reset-mode cycle from a fresh state: the
/// origin held for `RESET_HOLD` extra ticks, an ascent by one per tick to
/// the far end, the far end held for `RESET_HOLD` extra ticks, then the
/// origin again.
pub proof fn lemma_reset_run_cycle(max_off: int, t: nat)
    requires
        1 <= max_off,
        t <= 2 * RESET_HOLD + max_off + 1,
    ensures
        t <= RESET_HOLD ==> reset_run(max_off, t) == (0int, t as int),
        RESET_HOLD < t <= RESET_HOLD + max_off ==> reset_run(max_off, t) == (
            t - RESET_HOLD,
            0int,
        ),
        RESET_HOLD + max_off < t <= 2 * RESET_HOLD + max_off ==> reset_run(max_off, t) == (
            max_off,
            t - RESET_HOLD - max_off,
        ),
        t == 2 * RESET_HOLD + max_off + 1 ==> reset_run(max_off, t) == (0int, 0int),
    decreases t,
{
    if t > 0 {
        lemma_reset_run_cycle(max_off, (t - 1) as nat);
    }
}

/// At an endpoint the offset dwells: while the counter is below the
/// threshold only the counter moves, and once it reaches the threshold the
/// offset advances (or restarts from the far end) and the counter clears.
pub proof fn lemma_reset_dwell(o: int, hold: int, max_off: int)
    requires
        max_off >= 1,
        o == 0 || o == max_off,
        0 <= hold,
    ensures
        hold < RESET_HOLD ==> reset_step(o, hold, max_off) == (o, hold + 1),
        hold >= RESET_HOLD ==> reset_step(o, hold, max_off) == (
            (if o == max_off {
                0int
            } else {
                o + 1
            }),
            0int,
        ),
{
}

/// Shifting the base of a sum into its residue class does not change the
/// residue of the sum.
proof fn lemma_mod_shift(a: int, j: int, l: int)
    requires
        l > 0,
    ensures
        ((a % l) + j) % l == (a + j) % l,
{
    vstd::arithmetic::div_mod::lemma_add_mod_noop(a, j, l);
    vstd::arithmetic::div_mod::lemma_add_mod_noop(a % l, j, l);
    vstd::arithmetic::div_mod::lemma_mod_twice(a, l);
}

/// Computes the wrapping-mode frame and next offset.
fn wrap_core(chars: &Vec<char>, off0: usize, width: usize) -> (res: (Vec<char>, usize))
    requires
        chars@.len() + 3 <= usize::MAX,
        width < chars@.len(),
    ensures
        res.0@ == wrap_frame(chars@, off0 as int, width as int),
        res.1 as int == wrap_next_offset(off0 as int, chars@.len() as int),
{
    let len: usize = chars.len();
    let l: usize = len + 3;
    let mut padded: Vec<char> = Vec::new();
    let mut i: usize = 0;
    while i < len
        invariant
            i <= len,
            len == chars@.len(),
            padded@ == chars@.subrange(0, i as int),
        decreases len - i,
    {
        padded.push(chars[i]);
        i = i + 1;
        proof {
            assert(padded@ =~= chars@.subrange(0, i as int));
        }
    }
    padded.push(' ');
    padded.push(' ');
    padded.push(' ');
    proof {
        assert(padded@ =~= wrap_padded(chars@));
    }
    let o: usize = off0 % l;
    let mut out: Vec<char> = Vec::new();
    let mut i: usize = 0;
    while i < width
        invariant
            i <= width,
            width < len,
            len == chars@.len(),
            l == len + 3,
            padded@ == wrap_padded(chars@),
            o == off0 as int % l as int,
            out@ == Seq::new(i as nat, |j: int| wrap_padded(chars@)[(off0 + j) % (l as int)]),
        decreases width - i,
    {
        let k: usize = l - o;
        let idx: usize = if i < k {
            o + i
        } else {
            i - k
        };
        proof {
            lemma_mod_shift(off0 as int, i as int, l as int);
            if i < k {
                assert((o + i) % (l as int) == idx) by {
                    vstd::arithmetic::div_mod::lemma_small_mod((o + i) as nat, l as nat);
                };
            } else {
                assert(o + i == l + idx);
                assert((o + i) % (l as int) == idx) by {
                    vstd::arithmetic::div_mod::lemma_mod_adds(idx as int, l as int, l as int);
                    vstd::arithmetic::div_mod::lemma_small_mod(idx as nat, l as nat);
                    vstd::arithmetic::div_mod::lemma_mod_self_0(l as int);
                };
            }
            assert((off0 + i) % (l as int) == idx);
        }
        out.push(padded[idx]);
        i = i + 1;
        proof {
            assert(out@ =~= Seq::new(i as nat, |j: int| wrap_padded(chars@)[(off0 + j) % (l as int)]));
        }
    }
    let next: usize = (o + 1) % l;
    proof {
        lemma_mod_shift(off0 as int, 1, l as int);
        assert(out@ =~= wrap_frame(chars@, off0 as int, width as int));
    }
    (out, next)
}

/// Computes the reset-mode frame and next state. An offset beyond the last
/// window is treated as the last window.
fn reset_core(chars: &Vec<char>, off0: usize, hold0: usize, width: usize) -> (res: (Vec<char>, usize, usize))
    requires
        width < chars@.len(),
    ensures
        ({
            let max_off = chars@.len() - width;
            let o = if off0 > max_off { max_off as int } else { off0 as int };
            let stepped = reset_step(o, hold0 as int, max_off as int);
            &&& res.0@ == chars@.subrange(o, o + width)
            &&& res.1 as int == stepped.0
            &&& res.2 as int == stepped.1
        }),
{
    let len: usize = chars.len();
    let max_off: usize = len - width;
    let o: usize = if off0 > max_off {
        max_off
    } else {
        off0
    };
    let mut out: Vec<char> = Vec::new();
    let mut i: usize = o;
    while i < o + width
        invariant
            o <= i <= o + width,
            o + width <= len,
            len == chars@.len(),
            out@ == chars@.subrange(o as int, i as int),
        decreases o + width - i,
    {
        out.push(chars[i]);
        i = i + 1;
        proof {
            assert(out@ =~= chars@.subrange(o as int, i as int));
        }
    }
    let (next_off, next_hold): (usize, usize) = if o == 0 || o == max_off {
        if hold0 < RESET_HOLD {
            (o, hold0 + 1)
        } else {
            if o == max_off {
                (0, 0)
            } else {
                (o + 1, 0)
            }
        }
    } else {
        (o + 1, hold0)
    };
    (out, next_off, next_hold)
}

impl WrappingState {
    /// A fresh wrapping scroll at the origin.
    pub fn new() -> (s: Self)
        ensures
            s.offset == 0,
            s.last_text@ == Seq::<char>::empty(),
    {
        WrappingState { offset: 0, last_text: String::new() }
    }

    /// Restarts the scroll when the text changed.
    fn reset_if_needed(&mut self, text: &str)
        ensures
            final(self).last_text@ == text@,
            text@ == old(self).last_text@ ==> *final(self) == *old(self),
            text@ != old(self).last_text@ ==> final(self).offset == 0,
    {
        if !str_eq(text, self.last_text.as_str()) {
            self.last_text = text.to_owned();
            self.offset = 0;
        }
    }
}

/// Scrolls text in a wrapping style by appending a spacer and reading the
/// window cyclically.
pub fn wrapping(text: &str, state: &mut WrappingState, width: usize) -> (frame: String)
    requires
        text@.len() + 3 <= usize::MAX,
    ensures
        ({
            let spec = advance_spec(
                text@,
                old(state).offset as int,
                0,
                old(state).last_text@,
                width as int,
                ScrollMode::Wrapping,
            );
            &&& frame@ == spec.0
            &&& final(state).offset as int == spec.1
            &&& final(state).last_text@ == text@
        }),
{
    state.reset_if_needed(text);
    let chars = str_to_chars(text);
    if chars.len() <= width {
        return text.to_owned();
    }
    let (frame, next) = wrap_core(&chars, state.offset, width);
    state.offset = next;
    chars_to_string(&frame)
}

impl ResetState {
    /// A fresh reset-mode scroll at the origin.
    pub fn new() -> (s: Self)
        ensures
            s.offset == 0,
            s.hold == 0,
            s.last_text@ == Seq::<char>::empty(),
    {
        ResetState { offset: 0, hold: 0, last_text: String::new() }
    }

    /// Restarts the scroll and the dwell counter when the text changed.
    fn reset_if_needed(&mut self, text: &str)
        ensures
            final(self).last_text@ == text@,
            text@ == old(self).last_text@ ==> *final(self) == *old(self),
            text@ != old(self).last_text@ ==> final(self).offset == 0 && final(self).hold == 0,
    {
        if !str_eq(text, self.last_text.as_str()) {
            self.last_text = text.to_owned();
            self.offset = 0;
            self.hold = 0;
        }
    }
}

/// Scrolls text in reset mode with a holding period at the beginning and
/// end of the text.
pub fn reset(text: &str, state: &mut ResetState, width: usize) -> (frame: String)
    ensures
        ({
            let spec = advance_spec(
                text@,
                old(state).offset as int,
                old(state).hold as int,
                old(state).last_text@,
                width as int,
                ScrollMode::Reset,
            );
            &&& frame@ == spec.0
            &&& final(state).offset as int == spec.1
            &&& final(state).hold as int == spec.2
            &&& final(state).last_text@ == text@
        }),
{
    state.reset_if_needed(text);
    let chars = str_to_chars(text);
    if chars.len() <= width {
        return text.to_owned();
    }
    let (frame, next_off, next_hold) = reset_core(&chars, state.offset, state.hold, width);
    state.offset = next_off;
    state.hold = next_hold;
    chars_to_string(&frame)
}

impl ScrollState {
    /// A fresh scroll context at the origin.
    pub fn new() -> (s: Self)
        ensures
            s.offset == 0,
            s.hold == 0,
            s.last_text@ == Seq::<char>::empty(),
    {
        ScrollState { offset: 0, hold: 0, last_text: String::new() }
    }

    /// Restarts the scroll and the dwell counter when the text changed.
    fn reset_if_needed(&mut self, text: &str)
        ensures
            final(self).last_text@ == text@,
            text@ == old(self).last_text@ ==> *final(self) == *old(self),
            text@ != old(self).last_text@ ==> final(self).offset == 0 && final(self).hold == 0,
    {
        if !str_eq(text, self.last_text.as_str()) {
            self.last_text = text.to_owned();
            self.offset = 0;
            self.hold = 0;
        }
    }
}

/// Produces the next visible frame for `text` in the given mode, mutating
/// the scroll state; a change of text restarts the scroll first.
pub fn scroll(text: &str, state: &mut ScrollState, width: usize, mode: ScrollMode) -> (frame: String)
    requires
        text@.len() + 3 <= usize::MAX,
    ensures
        ({
            let spec = advance_spec(
                text@,
                old(state).offset as int,
                old(state).hold as int,
                old(state).last_text@,
                width as int,
                mode,
            );
            &&& frame@ == spec.0
            &&& final(state).offset as int == spec.1
            &&& final(state).hold as int == spec.2
            &&& final(state).last_text@ == text@
        }),
{
    state.reset_if_needed(text);
    let chars = str_to_chars(text);
    if chars.len() <= width {
        return text.to_owned();
    }
    match mode {
        ScrollMode::Wrapping => {
            let (frame, next) = wrap_core(&chars, state.offset, width);
            state.offset = next;
            chars_to_string(&frame)
        },
        ScrollMode::Reset => {
            let (frame, next_off, next_hold) = reset_core(&chars, state.offset, state.hold, width);
            state.offset = next_off;
            state.hold = next_hold;
            chars_to_string(&frame)
        },
    }
}

} // verus!
