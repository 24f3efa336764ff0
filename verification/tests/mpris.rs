use spotify_mpris::mpris::{
    get_loopstatus, get_metadata, get_playbackstatus, get_position, get_shuffle, select_groups,
    Gate, GatePhase, MprisCommand,
};
use spotify_mpris::status::{PlaybackStatus, SessionSnapshot, SpotifyStatus, TrackFacts};

fn playing(title: &str, volume: i32) -> SessionSnapshot {
    SessionSnapshot::Active {
        playback_status: PlaybackStatus::Playing,
        shuffling: Some(true),
        repeating: Some(false),
        position: Some(2_000_000),
        volume: Some(volume),
        track: Some(TrackFacts {
            artist: Some("Artist".to_string()),
            id: Some("spotify:track:1".to_string()),
            name: Some(title.to_string()),
            album: Some("Album".to_string()),
            album_artist: Some("Artist".to_string()),
            artwork_url: Some("https://example.invalid/art.png".to_string()),
            disk_number: Some(2),
            duration: Some(240),
            url: Some("https://example.invalid/track".to_string()),
        }),
    }
}

#[test]
fn quiet_aggregate_opens_no_round() {
    let mut gate = Gate::new();
    let status = SpotifyStatus::default();
    let cmd = gate.maybe_begin_round(&status);
    assert_eq!(cmd, None);
    assert_eq!(gate.phase, GatePhase::Idle);
}

#[test]
fn one_round_emits_once_and_then_acknowledges() {
    let mut gate = Gate::new();
    let mut status = SpotifyStatus::default();
    status.update(Ok(playing("A", 50))).unwrap();

    // Sampler side: a change was detected, a round opens.
    let cmd = gate.maybe_begin_round(&status);
    assert_eq!(cmd, Some(MprisCommand::Tick));
    assert_eq!(gate.phase, GatePhase::TickPending);

    // Publisher side: the emission is fixed while the round is open.
    let (reply, sel) = gate.acknowledge(&status);
    assert_eq!(reply, MprisCommand::Ack);
    assert!(sel.metadata);
    assert!(sel.playback_status && sel.loop_status && sel.shuffle && sel.volume && sel.position);
    assert_eq!(gate.phase, GatePhase::Acked);

    // Sampler side: only now is the aggregate acknowledged.
    gate.complete_round(&mut status);
    assert_eq!(gate.phase, GatePhase::Idle);
    assert!(!status.has_changed());
    // The values survive the acknowledgment.
    assert_eq!(*status.track().name(), Some("A".to_string()));
    assert_eq!(status.volume(), Some(50));
}

#[test]
fn identical_refresh_opens_no_second_round() {
    let mut gate = Gate::new();
    let mut status = SpotifyStatus::default();
    status.update(Ok(playing("A", 50))).unwrap();
    gate.maybe_begin_round(&status);
    gate.acknowledge(&status);
    gate.complete_round(&mut status);

    status.update(Ok(playing("A", 50))).unwrap();
    assert!(!status.has_changed());
    assert_eq!(gate.maybe_begin_round(&status), None);
    assert_eq!(gate.phase, GatePhase::Idle);
}

#[test]
fn volume_only_change_excludes_the_metadata_group() {
    let mut gate = Gate::new();
    let mut status = SpotifyStatus::default();
    status.update(Ok(playing("A", 50))).unwrap();
    gate.maybe_begin_round(&status);
    gate.acknowledge(&status);
    gate.complete_round(&mut status);

    status.update(Ok(playing("A", 60))).unwrap();
    assert!(status.has_changed());
    let cmd = gate.maybe_begin_round(&status);
    assert_eq!(cmd, Some(MprisCommand::Tick));
    let (_, sel) = gate.acknowledge(&status);
    assert!(!sel.metadata);
    assert!(sel.volume);
    gate.complete_round(&mut status);
    assert!(!status.has_changed());
}

#[test]
fn stop_tears_the_gate_down() {
    let mut gate = Gate::new();
    let cmd = gate.stop();
    assert_eq!(cmd, MprisCommand::Stop);
    assert_eq!(gate.phase, GatePhase::Stopped);
}

#[test]
fn select_groups_reads_the_track_reports() {
    let mut status = SpotifyStatus::default();
    let sel = select_groups(&status);
    assert!(!sel.metadata);
    status.track.set_name(Some("A".to_string()));
    let sel = select_groups(&status);
    assert!(sel.metadata);
}

#[test]
fn playback_status_labels() {
    let mut status = SpotifyStatus::default();
    assert_eq!(get_playbackstatus(&status), "Stopped");
    status.set_playback_status(PlaybackStatus::Playing);
    assert_eq!(get_playbackstatus(&status), "Playing");
    status.set_playback_status(PlaybackStatus::Paused);
    assert_eq!(get_playbackstatus(&status), "Paused");
}

#[test]
fn loop_status_labels() {
    let mut status = SpotifyStatus::default();
    assert_eq!(get_loopstatus(&status), "None");
    status.set_repeating(Some(false));
    assert_eq!(get_loopstatus(&status), "None");
    status.set_repeating(Some(true));
    assert_eq!(get_loopstatus(&status), "Playlist");
}

#[test]
fn shuffle_and_position_default_when_unknown() {
    let mut status = SpotifyStatus::default();
    assert!(!get_shuffle(&status));
    assert_eq!(get_position(&status), 0);
    status.set_shuffling(Some(true));
    status.set_position(Some(123_456));
    assert!(get_shuffle(&status));
    assert_eq!(get_position(&status), 123_456);
}

#[test]
fn metadata_renders_known_fields() {
    let mut status = SpotifyStatus::default();
    status.update(Ok(playing("Title", 50))).unwrap();
    let m = get_metadata(&status);
    assert_eq!(m.track_id, "spotify:track:1");
    assert_eq!(m.length, 240_000);
    assert_eq!(m.art_url, "https://example.invalid/art.png");
    assert_eq!(m.album, "Album");
    assert_eq!(m.album_artist, "Artist");
    assert_eq!(m.artist, "Artist");
    assert_eq!(m.disc_number, 2);
    assert_eq!(m.title, "Title");
    assert_eq!(m.track_number, 0);
    assert_eq!(m.url, "https://example.invalid/track");
}

#[test]
fn metadata_length_scales_extreme_durations() {
    let mut status = SpotifyStatus::default();
    status.track.set_duration(Some(i32::MAX));
    assert_eq!(get_metadata(&status).length, i32::MAX as i64 * 1000);
    status.track.set_duration(Some(i32::MIN));
    assert_eq!(get_metadata(&status).length, i32::MIN as i64 * 1000);
    status.track.set_duration(Some(-1));
    assert_eq!(get_metadata(&status).length, -1000);
}

#[test]
fn metadata_renders_unknown_fields_with_defaults() {
    let status = SpotifyStatus::default();
    let m = get_metadata(&status);
    assert_eq!(m.track_id, "");
    assert_eq!(m.length, 0);
    assert_eq!(m.art_url, "");
    assert_eq!(m.album, "");
    assert_eq!(m.album_artist, "");
    assert_eq!(m.artist, "");
    assert_eq!(m.disc_number, 0);
    assert_eq!(m.title, "");
    assert_eq!(m.url, "");
}
