use koditerm::app::{App, PlaybackBackend, RepeatMode};
use koditerm::config::Theme;
use koditerm::kodi::Song;
use koditerm::playback::skip_position;

fn song(id: u32) -> Song {
    Song {
        songid: id,
        label: format!("Song {id}"),
        artist: vec!["Band".to_string()],
        album: "Record".to_string(),
        track: Some(id),
        duration: Some(180),
    }
}

fn local_app() -> App {
    let mut app = App::new(Theme::default());
    app.set_songs(vec![song(1), song(2), song(3)]);
    assert!(app.switch_backend());
    app.local_player_opened(None);
    app
}

fn playing(app: &mut App, ids: &[u32], pos: usize) {
    app.local_queue = ids.iter().map(|i| song(*i)).collect();
    app.local_queue_pos = pos;
    app.local_current_song = Some(song(ids[pos]));
    app.local_fetching = false;
}

#[test]
fn switching_backends_reports_the_mode() {
    let mut app = App::new(Theme::default());
    assert!(app.switch_backend());
    assert_eq!(app.backend, PlaybackBackend::Local);
    app.local_player_opened(None);
    assert_eq!(app.status_message.as_deref(), Some("Local playback mode (songs only)"));
    assert!(!app.switch_backend());
    assert_eq!(app.backend, PlaybackBackend::Remote);
    assert_eq!(app.status_message.as_deref(), Some("Remote playback mode"));
}

#[test]
fn failing_local_player_goes_back_to_kodi() {
    let mut app = App::new(Theme::default());
    assert!(app.switch_backend());
    app.local_player_opened(Some("no device".to_string()));
    assert_eq!(app.backend, PlaybackBackend::Remote);
    assert_eq!(app.status_message.as_deref(), Some("Local audio unavailable: no device"));
}

#[test]
fn tick_copies_player_state_and_advances() {
    let mut app = local_app();
    playing(&mut app, &[1, 2, 3], 0);
    assert!(app.tick_fits(false));
    assert!(app.local_tick(true, 42, false).is_none());
    assert!(app.local_paused);
    assert_eq!(app.local_position, 42);
    let next = app.local_tick(false, 0, true).expect("next song");
    assert_eq!(next.songid, 2);
    assert_eq!(app.local_queue_pos, 1);
    assert!(app.local_fetching);
    assert_eq!(app.local_current_song.as_ref().map(|s| s.songid), Some(2));
}

#[test]
fn tick_while_fetching_waits() {
    let mut app = local_app();
    playing(&mut app, &[1, 2], 0);
    app.local_fetching = true;
    assert!(app.local_tick(false, 0, true).is_none());
    assert_eq!(app.local_queue_pos, 0);
}

#[test]
fn playback_stops_after_the_last_song() {
    let mut app = local_app();
    playing(&mut app, &[1, 2], 1);
    assert!(app.local_tick(false, 0, true).is_none());
    assert!(app.local_current_song.is_none());
}

#[test]
fn queue_repeat_wraps_to_the_first_song() {
    let mut app = local_app();
    playing(&mut app, &[1, 2], 1);
    app.repeat_mode = RepeatMode::Queue;
    let next = app.local_tick(false, 0, true).expect("wraps");
    assert_eq!(next.songid, 1);
    assert_eq!(app.local_queue_pos, 0);
}

#[test]
fn track_repeat_replays_the_song() {
    let mut app = local_app();
    playing(&mut app, &[1, 2], 1);
    app.repeat_mode = RepeatMode::Track;
    let next = app.local_tick(false, 0, true).expect("replays");
    assert_eq!(next.songid, 2);
    assert_eq!(app.local_queue_pos, 1);
    assert!(app.local_fetching);
}

#[test]
fn remote_mode_ticks_do_nothing() {
    let mut app = App::new(Theme::default());
    playing(&mut app, &[1], 0);
    assert!(app.local_tick(true, 9, true).is_none());
    assert!(!app.local_paused);
    assert_eq!(app.local_position, 0);
}

#[test]
fn song_list_replacing_the_queue() {
    let mut app = local_app();
    playing(&mut app, &[1], 0);
    let fetch = app.local_songs_ready(vec![song(5), song(6)], true);
    let (first, clear) = fetch.expect("fetch");
    assert_eq!(first.songid, 5);
    assert!(clear);
    assert_eq!(app.local_queue.len(), 2);
    assert_eq!(app.local_queue_pos, 0);
    assert!(app.local_current_song.is_none());
    assert!(app.local_fetching);
}

#[test]
fn song_list_joining_an_idle_queue_starts_it() {
    let mut app = local_app();
    app.local_queue = vec![song(1)];
    let fetch = app.local_songs_ready(vec![song(5), song(6)], false);
    let (first, clear) = fetch.expect("fetch");
    assert_eq!(first.songid, 5);
    assert!(!clear);
    assert_eq!(app.local_queue.len(), 3);
    assert_eq!(app.local_queue_pos, 1);
}

#[test]
fn song_list_joining_a_busy_queue_is_announced() {
    let mut app = local_app();
    playing(&mut app, &[1], 0);
    assert!(app.local_songs_ready(vec![song(5), song(6)], false).is_none());
    assert_eq!(app.local_queue.len(), 3);
    assert_eq!(app.status_message.as_deref(), Some("2 songs added to queue"));
}

#[test]
fn empty_song_list_is_reported() {
    let mut app = local_app();
    assert!(app.local_songs_ready(Vec::new(), true).is_none());
    assert_eq!(app.status_message.as_deref(), Some("No songs found"));
}

#[test]
fn audio_arrival_and_failure_messages() {
    let mut app = local_app();
    app.local_fetching = true;
    app.local_audio_result(song(2), true, 512, None);
    assert!(!app.local_fetching);
    assert_eq!(app.local_current_song.as_ref().map(|s| s.songid), Some(2));
    assert_eq!(app.status_message.as_deref(), Some("Playing locally: Song 2 (512 KB)"));

    let mut idle = local_app();
    idle.local_queue = vec![song(4), song(5)];
    idle.local_queue_pos = 1;
    idle.local_audio_result(song(5), false, 3, None);
    assert_eq!(idle.local_current_song.as_ref().map(|s| s.songid), Some(4));
    assert_eq!(idle.local_queue_pos, 0);
    assert_eq!(idle.status_message.as_deref(), Some("Queued: Song 5 (3 KB)"));

    let mut bad = local_app();
    bad.local_fetching = true;
    bad.local_audio_result(song(1), true, 0, Some("decode error".to_string()));
    assert!(!bad.local_fetching);
    assert_eq!(bad.status_message.as_deref(), Some("Playback error: decode error"));
}

#[test]
fn skipping_through_the_local_queue() {
    let mut app = local_app();
    playing(&mut app, &[1, 2, 3, 4], 1);
    assert!(app.skip_fits(2, true));
    let s = app.local_skip(2, true).expect("song");
    assert_eq!(s.songid, 4);
    assert_eq!(app.local_queue_pos, 3);
    let s = app.local_skip(10, true).expect("song");
    assert_eq!(s.songid, 4);
    let s = app.local_skip(10, false).expect("song");
    assert_eq!(s.songid, 1);
    assert_eq!(app.local_position, 0);
    let mut empty = local_app();
    assert!(empty.local_skip(1, true).is_none());
}

#[test]
fn skip_positions() {
    assert_eq!(skip_position(1, 4, 2, true), 3);
    assert_eq!(skip_position(1, 4, 9, true), 3);
    assert_eq!(skip_position(3, 4, 2, false), 1);
    assert_eq!(skip_position(1, 4, 5, false), 0);
}

#[test]
fn playing_and_queueing_library_songs() {
    let mut app = local_app();
    playing(&mut app, &[1, 2], 1);
    let s = app.start_local_song(3).expect("found");
    assert_eq!(s.songid, 3);
    assert_eq!(app.local_queue.len(), 1);
    assert_eq!(app.local_queue_pos, 0);
    assert!(app.local_fetching);
    let q = app.enqueue_local_song(2).expect("found");
    assert_eq!(q.songid, 2);
    assert_eq!(app.local_queue.len(), 2);
    assert!(app.start_local_song(99).is_none());
    assert!(app.enqueue_local_song(99).is_none());
    assert_eq!(app.local_queue.len(), 2);
    assert_eq!(app.find_song(1).map(|s| s.songid), Some(1));
}

#[test]
fn background_errors_end_loading() {
    let mut app = App::new(Theme::default());
    app.show_error("Failed to load artists".to_string());
    assert!(!app.loading);
    assert_eq!(app.status_message.as_deref(), Some("Failed to load artists"));
}
