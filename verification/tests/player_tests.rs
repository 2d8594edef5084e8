use scrollbarmpris::config::{delay_from_speed, normalize_blocked};
use scrollbarmpris::events::{
    MessageKind, PropertiesKind, classify_message, classify_properties, is_blocked, select_player,
    track_differs,
};
use scrollbarmpris::player::{PlayerState, TrackMetadata};

const SEC: i64 = 1_000_000;

fn meta(title: &str, artist: &str, album: &str) -> TrackMetadata {
    TrackMetadata {
        title: title.to_string(),
        artist: artist.to_string(),
        album: album.to_string(),
        length: None,
    }
}

#[test]
fn estimate_verbatim_while_paused() {
    let mut ps = PlayerState::default();
    ps.update_playback_dbus("Paused".to_string(), 42 * SEC, 10 * SEC);
    assert!(!ps.playing);
    // Whatever the clock says, a paused player is never extrapolated.
    assert_eq!(ps.estimate_position(10 * SEC), 42 * SEC);
    assert_eq!(ps.estimate_position(500 * SEC), 42 * SEC);
}

#[test]
fn estimate_verbatim_without_anchor() {
    let mut ps = PlayerState::default();
    ps.playing = true;
    ps.last_position = 7 * SEC;
    assert_eq!(ps.estimate_position(100 * SEC), 7 * SEC);
}

#[test]
fn estimate_extrapolates_while_playing() {
    let mut ps = PlayerState::default();
    ps.update_playback_dbus("Playing".to_string(), 42 * SEC, 10 * SEC);
    assert!(ps.playing);
    assert_eq!(ps.estimate_position(10 * SEC), 42 * SEC);
    assert_eq!(ps.estimate_position(15 * SEC), 47 * SEC);
    // Strictly increasing with the clock between re-anchors.
    let a = ps.estimate_position(20 * SEC);
    let b = ps.estimate_position(20 * SEC + 1);
    assert!(b > a);
}

#[test]
fn reanchor_corrects_the_estimate() {
    let mut ps = PlayerState::default();
    ps.update_playback_dbus("Playing".to_string(), 0, 0);
    assert_eq!(ps.estimate_position(9 * SEC), 9 * SEC);
    ps.reset_position_cache(3 * SEC, 9 * SEC);
    assert_eq!(ps.estimate_position(9 * SEC), 3 * SEC);
    assert_eq!(ps.estimate_position(11 * SEC), 5 * SEC);
}

#[test]
fn metadata_update_resets_position_cache() {
    let mut ps = PlayerState::default();
    ps.update_playback_dbus("Playing".to_string(), 42 * SEC, 0);
    ps.update_from_metadata(&meta("T", "A", "B"), 50 * SEC);
    assert_eq!(ps.title, "T");
    assert_eq!(ps.artist, "A");
    assert_eq!(ps.album, "B");
    assert_eq!(ps.last_position, 0);
    assert_eq!(ps.estimate_position(53 * SEC), 3 * SEC);
}

#[test]
fn has_changed_compares_text_fields() {
    let mut ps = PlayerState::default();
    ps.update_from_metadata(&meta("T", "A", "B"), 0);
    assert!(!ps.has_changed(&meta("T", "A", "B")));
    assert!(ps.has_changed(&meta("T2", "A", "B")));
    assert!(ps.has_changed(&meta("T", "A", "")));
}

#[test]
fn service_round_trip() {
    let mut ps = PlayerState::default();
    assert_eq!(ps.get_service(), None);
    ps.set_service("org.mpris.MediaPlayer2.mpv");
    assert_eq!(ps.get_service(), Some("org.mpris.MediaPlayer2.mpv"));
}

#[test]
fn delay_endpoints_and_floor() {
    assert_eq!(delay_from_speed(0), 1000);
    assert_eq!(delay_from_speed(50), 550);
    assert_eq!(delay_from_speed(100), 100);
    // Values past the scale stay at the floor.
    assert_eq!(delay_from_speed(200), 100);
}

#[test]
fn normalize_blocked_trims_lowercases_drops_empty() {
    let raw = vec![
        " Spotify ".to_string(),
        "".to_string(),
        "VLC".to_string(),
        "   ".to_string(),
    ];
    assert_eq!(normalize_blocked(&raw), vec!["spotify".to_string(), "vlc".to_string()]);
}

#[test]
fn blocked_by_substring_of_lowercased_name() {
    let list = vec!["spotify".to_string()];
    assert!(is_blocked("org.mpris.MediaPlayer2.Spotify", &list));
    assert!(!is_blocked("org.mpris.MediaPlayer2.vlc", &list));
    assert!(!is_blocked("anything", &[]));
}

#[test]
fn select_first_unblocked_player() {
    let names = vec![
        "org.mpris.MediaPlayer2.spotify".to_string(),
        "org.mpris.MediaPlayer2.vlc".to_string(),
        "org.mpris.MediaPlayer2.mpv".to_string(),
    ];
    let list = vec!["spotify".to_string()];
    assert_eq!(select_player(&names, &list), Some(1));
    assert_eq!(select_player(&names, &[]), Some(0));
    let all = vec!["org.mpris".to_string()];
    assert_eq!(select_player(&names, &all), None);
    assert_eq!(select_player(&Vec::new(), &[]), None);
}

#[test]
fn classify_message_routes_seek_and_properties() {
    assert_eq!(
        classify_message(Some("org.mpris.MediaPlayer2.Player"), Some("Seeked")),
        MessageKind::Seek
    );
    assert_eq!(
        classify_message(Some("org.freedesktop.DBus.Properties"), Some("PropertiesChanged")),
        MessageKind::Properties
    );
    assert_eq!(
        classify_message(Some("org.mpris.MediaPlayer2.Player"), Some("Other")),
        MessageKind::Ignored
    );
    assert_eq!(classify_message(None, Some("Seeked")), MessageKind::Ignored);
}

#[test]
fn classify_properties_routes_interfaces() {
    assert_eq!(
        classify_properties("org.mpris.MediaPlayer2"),
        PropertiesKind::PlayerNames
    );
    assert_eq!(
        classify_properties("org.freedesktop.DBus.Properties"),
        PropertiesKind::PlayerNames
    );
    assert_eq!(
        classify_properties("com.github.altdesktop.playerctld"),
        PropertiesKind::PlayerNames
    );
    assert_eq!(
        classify_properties("org.mpris.MediaPlayer2.Player"),
        PropertiesKind::PlayerProperties
    );
    assert_eq!(classify_properties("org.example.Other"), PropertiesKind::Ignored);
}

#[test]
fn track_differs_by_any_field() {
    let a = meta("T", "A", "B");
    assert!(!track_differs(&a, &meta("T", "A", "B")));
    assert!(track_differs(&a, &meta("T", "A", "C")));
    let mut with_len = meta("T", "A", "B");
    with_len.length = Some(1);
    assert!(track_differs(&a, &with_len));
}
