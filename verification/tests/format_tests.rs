use scrollbarmpris::mpris::{MprisPlayer, PositionMode, format_position, status_indicator};
use scrollbarmpris::template::format_collapsed;
use scrollbarmpris::utils::{format_metadata, icon_for};

fn player(status: &str, title: Option<&str>, artist: Option<&str>) -> MprisPlayer {
    MprisPlayer {
        service: "org.mpris.MediaPlayer2.spotify".to_string(),
        playback_status: status.to_string(),
        title: title.map(|s| s.to_string()),
        artist: artist.map(|s| s.to_string()),
        album: None,
        position: None,
        length: None,
    }
}

#[test]
fn position_zero_seconds() {
    assert_eq!(format_position(0), "00:00");
}

#[test]
fn position_sixty_five_seconds() {
    assert_eq!(format_position(65_000_000), "01:05");
}

#[test]
fn position_last_second_before_the_hour() {
    assert_eq!(format_position(3_599_000_000), "59:59");
}

#[test]
fn position_exactly_one_hour() {
    assert_eq!(format_position(3_600_000_000), "01:00:00");
}

#[test]
fn position_truncates_fractional_seconds() {
    assert_eq!(format_position(65_999_999), "01:05");
}

#[test]
fn position_many_hours() {
    // 100 hours, 2 minutes, 3 seconds.
    let us = ((100 * 3600 + 2 * 60 + 3) as i64) * 1_000_000;
    assert_eq!(format_position(us), "100:02:03");
}

#[test]
fn plain_format_replaces_and_trims() {
    assert_eq!(
        format_metadata("{title} - {artist}", "  Song  ", "Artist", ""),
        "Song - Artist"
    );
}

#[test]
fn plain_format_keeps_separator_for_empty_field() {
    // The plain helper does no collapsing: the separator survives and only
    // the outer edges are trimmed.
    assert_eq!(format_metadata("{title} - {artist}", "Song", "", ""), "Song -");
}

#[test]
fn collapsed_format_drops_separator_next_to_empty_field() {
    assert_eq!(format_collapsed("{title} - {artist}", "Song", "", ""), "Song");
    assert_eq!(format_collapsed("{title} - {artist}", "", "Artist", ""), "Artist");
}

#[test]
fn collapsed_format_keeps_separator_between_present_fields() {
    assert_eq!(
        format_collapsed("{title} - {artist}", " Song ", "Artist", ""),
        "Song - Artist"
    );
}

#[test]
fn collapsed_format_keeps_literal_prefix_and_suffix() {
    assert_eq!(format_collapsed(">> {title} <<", "", "", ""), ">>  <<");
    assert_eq!(format_collapsed(">> {title} <<", "Song", "", ""), ">> Song <<");
}

#[test]
fn collapsed_format_all_three_fields() {
    assert_eq!(
        format_collapsed("{title} - {artist} ({album})", "T", "A", "B"),
        "T - A (B)"
    );
    // A separator between an empty field and a present one is dropped too:
    // only separators flanked by two present fields survive.
    assert_eq!(
        format_collapsed("{title} - {artist} ({album})", "T", "", "B"),
        "TB)"
    );
}

#[test]
fn formatted_metadata_empty_when_stopped() {
    let p = player("Stopped", Some("Song"), Some("Artist"));
    assert_eq!(p.formatted_metadata("{title} - {artist}"), "");
}

#[test]
fn formatted_metadata_uses_collapsing() {
    let p = player("Playing", Some("Song"), None);
    assert_eq!(p.formatted_metadata("{title} - {artist}"), "Song");
}

#[test]
fn icon_for_known_services_case_insensitive() {
    // The lookup lowercases its input: an upper-case name must still match.
    assert_eq!(icon_for("SPOTIFY"), icon_for("spotify"));
    assert_ne!(icon_for("SPOTIFY"), icon_for("no-such-player"));
    assert_eq!(icon_for("org.mpris.MediaPlayer2.vlc"), icon_for("vlc"));
    assert_eq!(icon_for("FireFox"), icon_for("firefox"));
}

#[test]
fn icon_for_unknown_service_falls_back() {
    assert_eq!(icon_for("no-such-player"), icon_for(""));
}

#[test]
fn status_indicator_by_class() {
    assert_ne!(status_indicator("playing"), status_indicator("paused"));
    assert_eq!(status_indicator("stopped"), status_indicator("anything-else"));
}

#[test]
fn icon_and_status_lowercases_class() {
    let p = player("Playing", Some("Song"), None);
    let (icon, class) = p.icon_and_status();
    assert_eq!(class, "playing");
    assert!(icon.contains(status_indicator("playing")));
    assert!(icon.contains(icon_for("spotify")));
}

#[test]
fn icon_and_status_stopped_is_bare() {
    let p = player("Stopped", Some("Song"), None);
    let (icon, class) = p.icon_and_status();
    assert_eq!(icon, "");
    assert_eq!(class, "stopped");
}

#[test]
fn get_position_elapsed() {
    let mut p = player("Playing", Some("Song"), None);
    p.position = Some(65_000_000);
    assert_eq!(p.get_position(PositionMode::Increasing), "01:05");
}

#[test]
fn get_position_remaining() {
    let mut p = player("Playing", Some("Song"), None);
    p.position = Some(30_000_000);
    p.length = Some(100_000_000);
    assert_eq!(p.get_position(PositionMode::Remaining), "01:10");
}

#[test]
fn get_position_remaining_clamps_at_zero() {
    let mut p = player("Playing", Some("Song"), None);
    p.position = Some(120_000_000);
    p.length = Some(100_000_000);
    assert_eq!(p.get_position(PositionMode::Remaining), "00:00");
}

#[test]
fn get_position_remaining_without_length_degrades_to_elapsed() {
    let mut p = player("Playing", Some("Song"), None);
    p.position = Some(65_000_000);
    assert_eq!(p.get_position(PositionMode::Remaining), "01:05");
}

#[test]
fn get_position_without_sample_is_empty() {
    let p = player("Playing", Some("Song"), None);
    assert_eq!(p.get_position(PositionMode::Increasing), "");
}
