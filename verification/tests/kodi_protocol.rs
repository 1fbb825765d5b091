use koditerm::config::KodiSystem;
use koditerm::keys::Action;
use koditerm::kodi::ClockTime;
use koditerm::rpc::{
    local_song_list, next_repeat_setting, sequence_step, SequenceNext, remote_calls, reply_allowed, rpc_url, set_repeat_command, song_list_command,
    status_start, status_step, vfs_url, KodiCommand, PlayerEntry, RepeatSetting, StatusNext, StatusPoll, StatusReply,
};

#[test]
fn request_envelope_and_parameters() {
    assert_eq!(
        KodiCommand::GetArtists.request_body(),
        r#"{"id":1,"jsonrpc":"2.0","method":"AudioLibrary.GetArtists","params":{"limits":{"end":5000,"start":0},"sort":{"method":"artist"}}}"#
    );
    assert_eq!(
        KodiCommand::QueueSong(42).request_body(),
        r#"{"id":1,"jsonrpc":"2.0","method":"Playlist.Add","params":{"item":{"songid":42},"playlistid":0}}"#
    );
    assert_eq!(
        KodiCommand::Seek(-1, -30).request_body(),
        r#"{"id":1,"jsonrpc":"2.0","method":"Player.Seek","params":{"playerid":-1,"value":{"seconds":-30}}}"#
    );
    assert_eq!(
        KodiCommand::GoToPosition(0, 12).request_body(),
        r#"{"id":1,"jsonrpc":"2.0","method":"Player.GoTo","params":{"playerid":0,"to":12}}"#
    );
    assert_eq!(
        KodiCommand::GetActivePlayers.request_body(),
        r#"{"id":1,"jsonrpc":"2.0","method":"Player.GetActivePlayers","params":{}}"#
    );
    assert_eq!(
        KodiCommand::GetSongsForAlbum(7).request_body(),
        r#"{"id":1,"jsonrpc":"2.0","method":"AudioLibrary.GetSongs","params":{"filter":{"albumid":7},"properties":["artist","album","track","duration"],"sort":{"method":"track"}}}"#
    );
    assert_eq!(
        KodiCommand::PlayPause(i64::MIN).request_body(),
        r#"{"id":1,"jsonrpc":"2.0","method":"Player.PlayPause","params":{"playerid":-9223372036854775808}}"#
    );
}

#[test]
fn method_names() {
    assert_eq!(KodiCommand::GetAlbums.method(), "AudioLibrary.GetAlbums");
    assert_eq!(KodiCommand::OpenPlaylist.method(), "Player.Open");
    assert_eq!(KodiCommand::SetVolume(3).method(), "Application.SetVolume");
    assert_eq!(KodiCommand::GoNext(1).method(), "Player.GoTo");
}

#[test]
fn requests_go_to_the_jsonrpc_endpoint() {
    let s = KodiSystem {
        host: "10.0.0.2".to_string(),
        port: 8080,
        username: "u".to_string(),
        password: "p".to_string(),
        default: false,
    };
    assert_eq!(rpc_url(&s), "http://10.0.0.2:8080/jsonrpc");
}

#[test]
fn playing_replaces_the_playlist() {
    assert_eq!(
        remote_calls(Action::PlayAlbum(3), None, 0),
        vec![KodiCommand::PlaylistClear, KodiCommand::QueueAlbum(3), KodiCommand::OpenPlaylist]
    );
    assert_eq!(remote_calls(Action::QueueSong(8), None, 0), vec![KodiCommand::QueueSong(8)]);
    assert_eq!(remote_calls(Action::TogglePause(1), Some(1), 0), vec![KodiCommand::PlayPause(1)]);
    assert_eq!(remote_calls(Action::Volume(40), None, 0), vec![KodiCommand::SetVolume(40)]);
    assert_eq!(remote_calls(Action::Quit, Some(1), 0), Vec::<KodiCommand>::new());
    assert_eq!(remote_calls(Action::LocalPlaySong(1), Some(1), 0), Vec::<KodiCommand>::new());
}

#[test]
fn skipping_goes_to_a_playlist_position() {
    assert_eq!(remote_calls(Action::SkipForward(3), Some(1), 4), vec![KodiCommand::GoToPosition(1, 7)]);
    assert_eq!(remote_calls(Action::SkipBack(3), Some(1), 4), vec![KodiCommand::GoToPosition(1, 1)]);
    assert_eq!(remote_calls(Action::SkipBack(9), Some(1), 4), vec![KodiCommand::GoToPosition(1, 0)]);
    assert_eq!(remote_calls(Action::SkipForward(3), None, 4), Vec::<KodiCommand>::new());
}

#[test]
fn local_lists_of_albums_and_artists() {
    assert_eq!(song_list_command(5, true), KodiCommand::GetSongsForAlbum(5));
    assert_eq!(song_list_command(5, false), KodiCommand::GetSongsForArtist(5));
    assert_eq!(local_song_list(Action::LocalPlayAlbum(2)), Some((KodiCommand::GetSongsForAlbum(2), true)));
    assert_eq!(local_song_list(Action::LocalQueueArtist(4)), Some((KodiCommand::GetSongsForArtist(4), false)));
    assert_eq!(local_song_list(Action::LocalPlaySong(4)), None);
}

#[test]
fn kodi_repeat_setting_cycles() {
    assert_eq!(next_repeat_setting("off"), "one");
    assert_eq!(next_repeat_setting("one"), "all");
    assert_eq!(next_repeat_setting("all"), "off");
    assert_eq!(next_repeat_setting("something"), "off");
}

fn step(s: StatusPoll, r: StatusReply) -> StatusNext {
    assert!(reply_allowed(s, &r));
    status_step(s, r)
}

#[test]
fn status_poll_without_audio_player() {
    let (s0, c0) = status_start();
    assert_eq!(c0, KodiCommand::GetActivePlayers);
    let players = vec![PlayerEntry { is_audio: false, player_id: Some(1) }];
    let (s1, c1) = match step(s0, StatusReply::Players(players)) {
        StatusNext::Ask(s, c) => (s, c),
        StatusNext::Done(_) => panic!("asks for volume first"),
    };
    assert_eq!(c1, KodiCommand::GetAppProperties);
    match step(s1, StatusReply::Volume { volume: None, muted: Some(true) }) {
        StatusNext::Done(st) => {
            assert_eq!(st.player_id, None);
            assert!(!st.playing);
            assert_eq!(st.volume, 100);
            assert!(st.muted);
            assert!(st.current_item.is_none());
        },
        StatusNext::Ask(..) => panic!("no player to ask"),
    }
}

#[test]
fn status_poll_with_audio_player() {
    let (s0, _) = status_start();
    let players = vec![
        PlayerEntry { is_audio: false, player_id: Some(1) },
        PlayerEntry { is_audio: true, player_id: Some(0) },
        PlayerEntry { is_audio: true, player_id: Some(5) },
    ];
    let s1 = match step(s0, StatusReply::Players(players)) {
        StatusNext::Ask(s, _) => s,
        StatusNext::Done(_) => panic!(),
    };
    let (s2, c2) = match step(s1, StatusReply::Volume { volume: Some(300), muted: None }) {
        StatusNext::Ask(s, c) => (s, c),
        StatusNext::Done(_) => panic!("player 0 is active"),
    };
    assert_eq!(c2, KodiCommand::GetPlayerProperties(0));
    let time = ClockTime { hours: None, minutes: Some(1), seconds: Some(5) };
    let total = ClockTime { hours: Some(0), minutes: Some(4), seconds: Some(0) };
    let (s3, c3) = match step(s2, StatusReply::Properties { speed: Some(1), time, total }) {
        StatusNext::Ask(s, c) => (s, c),
        StatusNext::Done(_) => panic!(),
    };
    assert_eq!(c3, KodiCommand::GetItem(0));
    match step(s3, StatusReply::Item { title: Some("Song".to_string()), artist: None, album: Some("LP".to_string()) }) {
        StatusNext::Done(st) => {
            assert_eq!(st.player_id, Some(0));
            assert!(st.playing);
            assert_eq!(st.position, 65);
            assert_eq!(st.duration, 240);
            assert_eq!(st.volume, 300);
            assert!(!st.muted);
            let item = st.current_item.expect("item");
            assert_eq!(item.title, "Song");
            assert_eq!(item.artist, "");
            assert_eq!(item.album, "LP");
            assert_eq!(item.duration, 240);
        },
        StatusNext::Ask(..) => panic!(),
    }
}

#[test]
fn status_poll_paused_player() {
    let s = StatusPoll::AskProperties { player: 2, volume: 10, muted: false };
    let t = ClockTime { hours: None, minutes: None, seconds: None };
    let u = ClockTime { hours: None, minutes: None, seconds: None };
    let s3 = match step(s, StatusReply::Properties { speed: None, time: t, total: u }) {
        StatusNext::Ask(s, _) => s,
        StatusNext::Done(_) => panic!(),
    };
    match step(s3, StatusReply::Item { title: None, artist: None, album: None }) {
        StatusNext::Done(st) => {
            assert!(!st.playing);
            assert_eq!(st.speed, 0);
        },
        StatusNext::Ask(..) => panic!(),
    }
}

#[test]
fn mismatched_replies_are_refused() {
    let (s0, _) = status_start();
    assert!(!reply_allowed(s0, &StatusReply::Volume { volume: None, muted: None }));
    let s = StatusPoll::AskProperties { player: 2, volume: 10, muted: false };
    let big = ClockTime { hours: Some(u64::MAX), minutes: None, seconds: None };
    let ok = ClockTime { hours: None, minutes: None, seconds: None };
    assert!(!reply_allowed(s, &StatusReply::Properties { speed: None, time: big, total: ok }));
}

#[test]
fn repeat_and_song_file_requests() {
    assert_eq!(
        KodiCommand::SetRepeat(0, RepeatSetting::One).request_body(),
        r#"{"id":1,"jsonrpc":"2.0","method":"Player.SetRepeat","params":{"playerid":0,"repeat":"one"}}"#
    );
    assert_eq!(
        KodiCommand::GetSongDetails(77).request_body(),
        r#"{"id":1,"jsonrpc":"2.0","method":"AudioLibrary.GetSongDetails","params":{"properties":["file"],"songid":77}}"#
    );
    assert_eq!(set_repeat_command(3, "off"), KodiCommand::SetRepeat(3, RepeatSetting::One));
    assert_eq!(set_repeat_command(3, "one"), KodiCommand::SetRepeat(3, RepeatSetting::All));
    assert_eq!(set_repeat_command(3, "all"), KodiCommand::SetRepeat(3, RepeatSetting::Off));
    assert_eq!(set_repeat_command(3, "???"), KodiCommand::SetRepeat(3, RepeatSetting::Off));
}

#[test]
fn song_files_are_fetched_through_the_vfs() {
    let s = KodiSystem {
        host: "kodi".to_string(),
        port: 8080,
        username: "u".to_string(),
        password: "p".to_string(),
        default: false,
    };
    assert_eq!(vfs_url(&s, "abc-_.~XYZ09"), "http://kodi:8080/vfs/abc-_.~XYZ09");
    assert_eq!(
        vfs_url(&s, "/music/Björk/01 Hyper.flac"),
        "http://kodi:8080/vfs/%2Fmusic%2FBj%C3%B6rk%2F01%20Hyper.flac"
    );
    assert_eq!(vfs_url(&s, ""), "http://kodi:8080/vfs/");
}

fn drive(calls: &Vec<KodiCommand>, failing: Option<usize>) -> (Vec<KodiCommand>, Result<(), String>) {
    let mut made = 0usize;
    let mut failure: Option<String> = None;
    let mut sent = Vec::new();
    loop {
        match sequence_step(calls, made, failure.take()) {
            SequenceNext::Call(c) => {
                sent.push(c);
                if failing == Some(sent.len() - 1) {
                    failure = Some(format!("call {} failed", sent.len() - 1));
                } else {
                    made += 1;
                }
            },
            SequenceNext::Finished(r) => return (sent, r),
        }
    }
}

#[test]
fn a_run_stops_at_the_first_failed_call() {
    let calls = remote_calls(Action::PlaySong(5), None, 0);
    let (sent, r) = drive(&calls, None);
    assert_eq!(sent, calls);
    assert_eq!(r, Ok(()));
    let (sent, r) = drive(&calls, Some(1));
    assert_eq!(sent, vec![KodiCommand::PlaylistClear, KodiCommand::QueueSong(5)]);
    assert_eq!(r, Err("call 1 failed".to_string()));
    let (sent, r) = drive(&calls, Some(0));
    assert_eq!(sent, vec![KodiCommand::PlaylistClear]);
    assert_eq!(r, Err("call 0 failed".to_string()));
    let (sent, r) = drive(&Vec::new(), None);
    assert!(sent.is_empty());
    assert_eq!(r, Ok(()));
}
