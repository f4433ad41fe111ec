use kronos::engine::MusicHandle;
use kronos::errors::MusicError;

#[test]
fn fresh_controller_is_idle() {
    let h = MusicHandle::new();
    assert_eq!(h.get_current_song(), "CURRENT SONG".to_string());
    assert_eq!(h.get_song_length(), 0);
    assert_eq!(h.get_time_played(), 0);
    assert_eq!(h.get_sink_length(), 0);
}

#[test]
fn play_sets_song_name_to_base_name() {
    let mut h = MusicHandle::new();
    let r = h.play("music/albums/song.mp3", Some("00:03:45"));
    assert!(r.is_ok());
    assert_eq!(h.get_current_song(), "song.mp3".to_string());
}

#[test]
fn play_without_separator_keeps_whole_path() {
    let mut h = MusicHandle::new();
    let r = h.play("song.flac", Some("00:01:00"));
    assert!(r.is_ok());
    assert_eq!(h.get_current_song(), "song.flac".to_string());
}

#[test]
fn play_resets_elapsed_to_zero() {
    let mut h = MusicHandle::new();
    h.set_time_played(42);
    let r = h.play("a/b.mp3", Some("00:03:45"));
    assert!(r.is_ok());
    assert_eq!(h.get_time_played(), 0);
    assert_eq!(h.get_sink_length(), 1);
}

#[test]
fn playing_tick_advances_elapsed() {
    let mut h = MusicHandle::new();
    h.play("a/b.mp3", Some("00:03:45")).unwrap();
    h.tick();
    assert_eq!(h.get_time_played(), 1);
    h.tick();
    assert_eq!(h.get_time_played(), 2);
}

#[test]
fn paused_tick_freezes_elapsed() {
    let mut h = MusicHandle::new();
    h.play("a/b.mp3", Some("00:03:45")).unwrap();
    h.tick();
    h.play_pause();
    h.tick();
    h.tick();
    assert_eq!(h.get_time_played(), 1);
    h.play_pause();
    h.tick();
    assert_eq!(h.get_time_played(), 2);
}

#[test]
fn play_pause_is_noop_while_idle() {
    let mut h = MusicHandle::new();
    h.play_pause();
    assert_eq!(h.get_sink_length(), 0);
    h.tick();
    assert_eq!(h.get_time_played(), 0);
}

#[test]
fn skip_empties_sink_and_freezes_elapsed() {
    let mut h = MusicHandle::new();
    h.play("a/b.mp3", Some("00:03:45")).unwrap();
    h.tick();
    h.skip();
    assert_eq!(h.get_sink_length(), 0);
    h.tick();
    h.tick();
    assert_eq!(h.get_time_played(), 1);
}

#[test]
fn replacing_play_resets_state_for_new_track() {
    let mut h = MusicHandle::new();
    h.play("music/first.mp3", Some("00:03:45")).unwrap();
    h.tick();
    h.tick();
    assert_eq!(h.get_time_played(), 2);
    let r = h.play("music/second.ogg", Some("00:02:10"));
    assert!(r.is_ok());
    assert_eq!(h.get_current_song(), "second.ogg".to_string());
    assert_eq!(h.get_time_played(), 0);
    assert_eq!(h.get_song_length(), 130);
    assert_eq!(h.get_sink_length(), 1);
}

#[test]
fn failed_play_leaves_prior_state_intact() {
    let mut h = MusicHandle::new();
    h.play("music/first.mp3", Some("00:03:45")).unwrap();
    h.tick();
    let r = h.play("music/second.ogg", Some("0345"));
    assert_eq!(r, Err(MusicError::MetadataUnavailable));
    assert_eq!(h.get_current_song(), "first.mp3".to_string());
    assert_eq!(h.get_song_length(), 225);
    assert_eq!(h.get_time_played(), 1);
    assert_eq!(h.get_sink_length(), 1);
}

#[test]
fn play_without_duration_tag_fails() {
    let mut h = MusicHandle::new();
    let r = h.play("music/first.mp3", None);
    assert_eq!(r, Err(MusicError::MetadataUnavailable));
    assert_eq!(h.get_sink_length(), 0);
}

#[test]
fn set_time_played_overwrites_counter() {
    let mut h = MusicHandle::new();
    h.set_time_played(100);
    assert_eq!(h.get_time_played(), 100);
}

#[test]
fn song_metadata_sets_length_only() {
    let mut h = MusicHandle::new();
    let r = h.song_metadata(Some("01:59:59"));
    assert!(r.is_ok());
    assert_eq!(h.get_song_length(), 59 * 60 + 59);
    assert_eq!(h.get_time_played(), 0);
    assert_eq!(h.get_sink_length(), 0);
}

#[test]
fn error_messages_name_each_failure() {
    assert_eq!(
        MusicError::DeviceUnavailable.message(),
        "no audio output device is available".to_string()
    );
    assert_eq!(MusicError::FileNotFound.message(), "file not found".to_string());
    assert_eq!(
        MusicError::UnsupportedFormat.message(),
        "file is not decodable audio".to_string()
    );
    assert_eq!(
        MusicError::MetadataUnavailable.message(),
        "track duration is missing or malformed".to_string()
    );
}
