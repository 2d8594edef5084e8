use scrollbarmpris::scroll::{ScrollMode, ScrollState, WrappingState, ResetState, scroll, wrapping, reset};

fn fresh_wrap() -> WrappingState {
    WrappingState::new()
}

#[test]
fn fit_text_returned_unchanged() {
    let mut st = fresh_wrap();
    // Prime the state with the same text so nothing needs resetting.
    let first = wrapping("abc", &mut st, 10);
    assert_eq!(first, "abc");
    let offset_before = st.offset;
    let frame = wrapping("abc", &mut st, 10);
    assert_eq!(frame, "abc");
    assert_eq!(st.offset, offset_before);
    assert_eq!(st.last_text, "abc");
}

#[test]
fn fit_text_reset_mode_state_untouched() {
    let mut st = ResetState::new();
    let first = reset("hello", &mut st, 5);
    assert_eq!(first, "hello");
    assert_eq!(st.offset, 0);
    assert_eq!(st.hold, 0);
    let frame = reset("hello", &mut st, 5);
    assert_eq!(frame, "hello");
    assert_eq!(st.offset, 0);
    assert_eq!(st.hold, 0);
}

#[test]
fn wrapping_cycles_through_padded_buffer() {
    let mut st = fresh_wrap();
    let mut frames = Vec::new();
    for _ in 0..9 {
        frames.push(wrapping("abcdef", &mut st, 3));
    }
    assert_eq!(
        frames,
        vec!["abc", "bcd", "cde", "def", "ef ", "f  ", "   ", "  a", " ab"]
    );
}

#[test]
fn wrapping_period_is_len_plus_three() {
    // len("abcdef") + 3 == 9: frame at tick t equals frame at tick t mod 9.
    let mut st = fresh_wrap();
    let mut frames = Vec::new();
    for _ in 0..27 {
        frames.push(wrapping("abcdef", &mut st, 4));
    }
    for t in 0..27 {
        assert_eq!(frames[t], frames[t % 9], "tick {}", t);
    }
}

#[test]
fn reset_mode_holds_and_bounces_within_endpoints() {
    let mut st = ResetState::new();
    let mut frames = Vec::new();
    let mut offsets = Vec::new();
    for _ in 0..10 {
        offsets.push(st.offset);
        frames.push(reset("abcde", &mut st, 3));
    }
    // max_offset = 2; dwell 3 ticks at each end, then restart at the origin.
    assert_eq!(
        frames,
        vec!["abc", "abc", "abc", "bcd", "cde", "cde", "cde", "abc", "abc", "abc"]
    );
    assert_eq!(offsets, vec![0, 0, 0, 1, 2, 2, 2, 0, 0, 0]);
    // Never leaves [0, max_offset] and never skips an index.
    let mut prev = 0usize;
    for &o in &offsets {
        assert!(o <= 2);
        assert!(o == prev || o == prev + 1 || (prev == 2 && o == 0));
        prev = o;
    }
}

#[test]
fn text_change_restarts_scroll() {
    let mut st = ScrollState::new();
    for _ in 0..4 {
        scroll("abcdefgh", &mut st, 3, ScrollMode::Wrapping);
    }
    assert!(st.offset > 0);
    // The very next call with another text starts from the origin.
    let frame = scroll("xyzuvw", &mut st, 3, ScrollMode::Wrapping);
    assert_eq!(frame, "xyz");
    assert_eq!(st.last_text, "xyzuvw");
    assert_eq!(st.offset, 1);
}

#[test]
fn text_change_resets_hold_in_reset_mode() {
    let mut st = ResetState::new();
    for _ in 0..5 {
        reset("abcdefgh", &mut st, 3);
    }
    let frame = reset("vwxyz", &mut st, 3);
    assert_eq!(frame, "vwx");
    assert_eq!(st.offset, 0);
    assert_eq!(st.hold, 1);
    assert_eq!(st.last_text, "vwxyz");
}

#[test]
fn scroll_dispatches_both_modes() {
    let mut st = ScrollState::new();
    assert_eq!(scroll("abcde", &mut st, 3, ScrollMode::Reset), "abc");
    assert_eq!(st.hold, 1);
    let mut st2 = ScrollState::new();
    assert_eq!(scroll("abcde", &mut st2, 3, ScrollMode::Wrapping), "abc");
    assert_eq!(st2.offset, 1);
    assert_eq!(scroll("abcde", &mut st2, 3, ScrollMode::Wrapping), "bcd");
}

#[test]
fn wrapping_scrolls_text_one_over_width() {
    // A text of four characters in a window of three scrolls through the
    // seven-slot cyclic buffer.
    let mut st = fresh_wrap();
    let mut frames = Vec::new();
    for _ in 0..7 {
        frames.push(wrapping("abcd", &mut st, 3));
    }
    assert_eq!(frames, vec!["abc", "bcd", "cd ", "d  ", "   ", "  a", " ab"]);
}

#[test]
fn reset_mode_clamps_out_of_range_offset() {
    // An offset beyond the last window is treated as the last window.
    let mut st = ResetState::new();
    reset("abcde", &mut st, 3);
    st.offset = 100;
    let frame = reset("abcde", &mut st, 3);
    assert_eq!(frame, "cde");
    assert!(st.offset <= 2);
}

#[test]
fn wrapping_reduces_offset_modulo_buffer() {
    // Only the offset's value modulo the buffer length matters.
    let mut st = fresh_wrap();
    wrapping("abcdef", &mut st, 3);
    st.offset = 9;
    let frame = wrapping("abcdef", &mut st, 3);
    assert_eq!(frame, "abc");
    assert_eq!(st.offset, 1);
}
