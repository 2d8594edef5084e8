use scrollbarmpris::config::{Config, PositionMode, ScrollMode};
use scrollbarmpris::json::json_status_line;
use scrollbarmpris::player::PlayerState;
use scrollbarmpris::scroll::ScrollState;
use scrollbarmpris::utils::{icon_for, render_status};

const SEC: i64 = 1_000_000;

fn cfg() -> Config {
    Config {
        speed: 0,
        width: 40,
        blocked: Vec::new(),
        scroll_mode: ScrollMode::Wrapping,
        format: "{title} - {artist}".to_string(),
        position_enabled: false,
        no_icon: true,
        position_mode: PositionMode::Increasing,
        freeze_on_pause: false,
        delay: 1000,
        no_status_icon: false,
    }
}

fn playing_state(title: &str, artist: &str) -> PlayerState {
    let mut ps = PlayerState::default();
    ps.title = title.to_string();
    ps.artist = artist.to_string();
    ps.update_playback_dbus("Playing".to_string(), 0, 0);
    ps
}

/// The record serde_json would produce for the same text and class.
fn serde_record(text: &str, class: &str) -> String {
    let mut map = serde_json::Map::new();
    map.insert(
        "text".to_string(),
        serde_json::Value::String(text.to_string()),
    );
    map.insert(
        "class".to_string(),
        serde_json::Value::String(class.to_string()),
    );
    serde_json::Value::Object(map).to_string()
}

#[test]
fn no_metadata_yields_stopped_record() {
    let ps = PlayerState::default();
    let mut sc = ScrollState::new();
    let mut last = String::new();
    let out = render_status(&cfg(), &ps, &mut sc, &mut last, 0);
    assert_eq!(out.as_deref(), Some(r#"{"class":"stopped","text":""}"#));
}

#[test]
fn no_metadata_stopped_regardless_of_configuration() {
    let mut ps = PlayerState::default();
    ps.playing = true;
    ps.status = "Playing".to_string();
    for variant in 0..4 {
        let mut c = cfg();
        c.no_icon = variant % 2 == 0;
        c.position_enabled = variant / 2 == 0;
        c.freeze_on_pause = variant == 1;
        let mut sc = ScrollState::new();
        let mut last = String::new();
        let out = render_status(&c, &ps, &mut sc, &mut last, 5 * SEC);
        assert_eq!(out.as_deref(), Some(r#"{"class":"stopped","text":""}"#));
    }
}

#[test]
fn repeated_stopped_record_is_suppressed() {
    let ps = PlayerState::default();
    let mut sc = ScrollState::new();
    let mut last = String::new();
    assert!(render_status(&cfg(), &ps, &mut sc, &mut last, 0).is_some());
    assert_eq!(render_status(&cfg(), &ps, &mut sc, &mut last, 0), None);
    assert_eq!(render_status(&cfg(), &ps, &mut sc, &mut last, SEC), None);
}

#[test]
fn playing_record_without_icon() {
    let ps = playing_state("Song", "Artist");
    let mut sc = ScrollState::new();
    let mut last = String::new();
    let out = render_status(&cfg(), &ps, &mut sc, &mut last, 0);
    assert_eq!(out.as_deref(), Some(r#"{"class":"playing","text":"Song - Artist"}"#));
    assert_eq!(last, r#"{"class":"playing","text":"Song - Artist"}"#);
}

#[test]
fn identical_consecutive_records_are_suppressed() {
    // The text fits the window, so two ticks compute the same record; the
    // second emits nothing.
    let ps = playing_state("Song", "Artist");
    let mut sc = ScrollState::new();
    let mut last = String::new();
    assert!(render_status(&cfg(), &ps, &mut sc, &mut last, 0).is_some());
    assert_eq!(render_status(&cfg(), &ps, &mut sc, &mut last, 0), None);
}

#[test]
fn scrolling_text_changes_record_each_tick() {
    let mut c = cfg();
    c.width = 5;
    c.format = "{title}".to_string();
    let ps = playing_state("A longer song title", "");
    let mut sc = ScrollState::new();
    let mut last = String::new();
    let first = render_status(&c, &ps, &mut sc, &mut last, 0);
    let second = render_status(&c, &ps, &mut sc, &mut last, 0);
    assert!(first.is_some());
    assert!(second.is_some());
    assert_ne!(first, second);
}

#[test]
fn stopped_status_with_metadata_yields_empty_text() {
    let mut ps = playing_state("Song", "Artist");
    ps.update_playback_dbus("Stopped".to_string(), 0, 0);
    let mut sc = ScrollState::new();
    let mut last = String::new();
    let out = render_status(&cfg(), &ps, &mut sc, &mut last, 0);
    assert_eq!(out.as_deref(), Some(r#"{"class":"stopped","text":""}"#));
}

#[test]
fn blank_formatted_text_emits_one_empty_line() {
    let mut c = cfg();
    c.format = String::new();
    let ps = playing_state("Song", "Artist");
    let mut sc = ScrollState::new();
    let mut last = "something".to_string();
    assert_eq!(render_status(&c, &ps, &mut sc, &mut last, 0).as_deref(), Some(""));
    assert_eq!(last, "");
    assert_eq!(render_status(&c, &ps, &mut sc, &mut last, 0), None);
}

#[test]
fn freeze_on_pause_truncates_and_resets_scroll() {
    let mut c = cfg();
    c.width = 4;
    c.format = "{title}".to_string();
    c.freeze_on_pause = true;
    let mut ps = playing_state("A longer song title", "");
    let mut sc = ScrollState::new();
    let mut last = String::new();
    render_status(&c, &ps, &mut sc, &mut last, 0);
    render_status(&c, &ps, &mut sc, &mut last, 0);
    assert!(sc.offset > 0);
    ps.update_playback_dbus("Paused".to_string(), 0, 0);
    let out = render_status(&c, &ps, &mut sc, &mut last, SEC);
    assert_eq!(sc.offset, 0);
    assert_eq!(sc.hold, 0);
    assert_eq!(out.as_deref(), Some(r#"{"class":"paused","text":"A lo"}"#));
}

#[test]
fn position_suffix_elapsed() {
    let mut c = cfg();
    c.position_enabled = true;
    let mut ps = playing_state("Song", "");
    ps.reset_position_cache(65 * SEC, 10 * SEC);
    let mut sc = ScrollState::new();
    let mut last = String::new();
    let out = render_status(&c, &ps, &mut sc, &mut last, 10 * SEC);
    assert_eq!(out.as_deref(), Some(r#"{"class":"playing","text":"Song 01:05"}"#));
}

#[test]
fn position_suffix_remaining() {
    let mut c = cfg();
    c.position_enabled = true;
    c.position_mode = PositionMode::Remaining;
    let mut ps = playing_state("Song", "");
    ps.length = Some(100 * SEC);
    ps.reset_position_cache(30 * SEC, 0);
    let mut sc = ScrollState::new();
    let mut last = String::new();
    let out = render_status(&c, &ps, &mut sc, &mut last, 0);
    assert_eq!(out.as_deref(), Some(r#"{"class":"playing","text":"Song 01:10"}"#));
}

#[test]
fn position_advances_with_the_clock() {
    let mut c = cfg();
    c.position_enabled = true;
    let mut ps = playing_state("Song", "");
    ps.reset_position_cache(0, 0);
    let mut sc = ScrollState::new();
    let mut last = String::new();
    let a = render_status(&c, &ps, &mut sc, &mut last, SEC);
    let b = render_status(&c, &ps, &mut sc, &mut last, 2 * SEC);
    assert_eq!(a.as_deref(), Some(r#"{"class":"playing","text":"Song 00:01"}"#));
    assert_eq!(b.as_deref(), Some(r#"{"class":"playing","text":"Song 00:02"}"#));
}

#[test]
fn icon_precedes_text_when_enabled() {
    let mut c = cfg();
    c.no_icon = false;
    let mut ps = playing_state("Song", "");
    ps.set_service("org.mpris.MediaPlayer2.spotify");
    let mut sc = ScrollState::new();
    let mut last = String::new();
    let out = render_status(&c, &ps, &mut sc, &mut last, 0).unwrap();
    let expected_text = format!("{} \u{f04b} Song", icon_for("spotify"));
    assert_eq!(out, serde_record(&expected_text, "playing"));
}

#[test]
fn record_framing_matches_serde_json() {
    let cases: [(&str, &str); 4] = [
        ("plain text", "playing"),
        ("with \"quotes\" and \\backslash\\", "paused"),
        ("control\u{1}chars\nand\ttabs", "stopped"),
        ("unicode \u{1f3b5} text", "playing"),
    ];
    for (text, class) in cases {
        let tv: Vec<char> = text.chars().collect();
        let cv: Vec<char> = class.chars().collect();
        let line: String = json_status_line(&tv, &cv).into_iter().collect();
        assert_eq!(line, serde_record(text, class));
    }
}

#[test]
fn escaped_title_round_trips_through_render() {
    let ps = playing_state("A \"quoted\" song", "");
    let mut sc = ScrollState::new();
    let mut last = String::new();
    let out = render_status(&cfg(), &ps, &mut sc, &mut last, 0).unwrap();
    assert_eq!(out, serde_record("A \"quoted\" song", "playing"));
    let parsed: serde_json::Value = serde_json::from_str(&out).unwrap();
    assert_eq!(parsed["text"], "A \"quoted\" song");
    assert_eq!(parsed["class"], "playing");
}
