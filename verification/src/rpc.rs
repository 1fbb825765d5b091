//! Kodi's JSON-RPC protocol: the request for each command, the commands
//! behind each remote playback action, and the steps of a status poll.
use vstd::prelude::*;
use crate::config::{base_url_text, KodiSystem};
use crate::kodi::{time_to_seconds, clock_fits, clock_total, ClockTime, CurrentItem, PlayerStatus, PlayerStatusView, CurrentItemView};
use crate::keys::Action;
use crate::text::{decimal, push_char, push_decimal, push_str, string_from};

verus! {

/// One call of Kodi's JSON-RPC interface.
#[derive(Debug, Clone, Copy, PartialEq, Eq, Structural)]
pub enum KodiCommand {
    GetArtists,
    GetAlbums,
    GetSongs,
    GetSongsForAlbum(u32),
    GetSongsForArtist(u32),
    PlaylistClear,
    QueueSong(u32),
    QueueAlbum(u32),
    QueueArtist(u32),
    OpenPlaylist,
    PlayPause(i64),
    Stop(i64),
    GoNext(i64),
    GoPrevious(i64),
    GoToPosition(i64, usize),
    Seek(i64, i32),
    SetVolume(u32),
    GetActivePlayers,
    GetAppProperties,
    GetPlayerProperties(i64),
    GetItem(i64),
    SetRepeat(i64, RepeatSetting),
    GetSongDetails(u32),
}

/// Kodi's repeat settings for a player.
#[derive(Debug, Clone, Copy, PartialEq, Eq, Structural)]
pub enum RepeatSetting {
    Off,
    One,
    All,
}

pub open spec fn repeat_text(r: RepeatSetting) -> Seq<char> {
    match r {
        RepeatSetting::Off => "off"@,
        RepeatSetting::One => "one"@,
        RepeatSetting::All => "all"@,
    }
}

/// A signed integer in decimal.
pub open spec fn signed_decimal(i: int) -> Seq<char> {
    if i < 0 {
        seq!['-'] + decimal((-i) as nat)
    } else {
        decimal(i as nat)
    }
}

pub fn push_signed(s: &mut String, i: i64)
    ensures
        final(s)@ == old(s)@ + signed_decimal(i as int),
{
    if i < 0 {
        push_char(s, '-');
        let m: u64 = (-(i + 1)) as u64 + 1;
        push_decimal(s, m);
    } else {
        push_decimal(s, i as u64);
    }
}

pub open spec fn method_name(c: KodiCommand) -> Seq<char> {
    match c {
        KodiCommand::GetArtists => "AudioLibrary.GetArtists"@,
        KodiCommand::GetAlbums => "AudioLibrary.GetAlbums"@,
        KodiCommand::GetSongs => "AudioLibrary.GetSongs"@,
        KodiCommand::GetSongsForAlbum(_) => "AudioLibrary.GetSongs"@,
        KodiCommand::GetSongsForArtist(_) => "AudioLibrary.GetSongs"@,
        KodiCommand::PlaylistClear => "Playlist.Clear"@,
        KodiCommand::QueueSong(_) => "Playlist.Add"@,
        KodiCommand::QueueAlbum(_) => "Playlist.Add"@,
        KodiCommand::QueueArtist(_) => "Playlist.Add"@,
        KodiCommand::OpenPlaylist => "Player.Open"@,
        KodiCommand::PlayPause(_) => "Player.PlayPause"@,
        KodiCommand::Stop(_) => "Player.Stop"@,
        KodiCommand::GoNext(_) => "Player.GoTo"@,
        KodiCommand::GoPrevious(_) => "Player.GoTo"@,
        KodiCommand::GoToPosition(_, _) => "Player.GoTo"@,
        KodiCommand::Seek(_, _) => "Player.Seek"@,
        KodiCommand::SetVolume(_) => "Application.SetVolume"@,
        KodiCommand::GetActivePlayers => "Player.GetActivePlayers"@,
        KodiCommand::GetAppProperties => "Application.GetProperties"@,
        KodiCommand::GetPlayerProperties(_) => "Player.GetProperties"@,
        KodiCommand::GetItem(_) => "Player.GetItem"@,
        KodiCommand::SetRepeat(_, _) => "Player.SetRepeat"@,
        KodiCommand::GetSongDetails(_) => "AudioLibrary.GetSongDetails"@,
    }
}

pub open spec fn song_properties() -> Seq<char> {
    "\"properties\":[\"artist\",\"album\",\"track\",\"duration\"]"@
}

/// The parameters of a command, as compact JSON with keys in ascending
/// order.
pub open spec fn params_text(c: KodiCommand) -> Seq<char> {
    match c {
        KodiCommand::GetArtists => "{\"limits\":{\"end\":5000,\"start\":0},\"sort\":{\"method\":\"artist\"}}"@,
        KodiCommand::GetAlbums => "{\"limits\":{\"end\":10000,\"start\":0},\"properties\":[\"artist\",\"year\"],\"sort\":{\"method\":\"album\"}}"@,
        KodiCommand::GetSongs => "{\"limits\":{\"end\":50000,\"start\":0},"@ + song_properties() + ",\"sort\":{\"method\":\"title\"}}"@,
        KodiCommand::GetSongsForAlbum(id) => "{\"filter\":{\"albumid\":"@ + decimal(id as nat) + "},"@ + song_properties()
            + ",\"sort\":{\"method\":\"track\"}}"@,
        KodiCommand::GetSongsForArtist(id) => "{\"filter\":{\"artistid\":"@ + decimal(id as nat) + "},"@ + song_properties()
            + ",\"sort\":{\"method\":\"album\"}}"@,
        KodiCommand::PlaylistClear => "{\"playlistid\":0}"@,
        KodiCommand::QueueSong(id) => "{\"item\":{\"songid\":"@ + decimal(id as nat) + "},\"playlistid\":0}"@,
        KodiCommand::QueueAlbum(id) => "{\"item\":{\"albumid\":"@ + decimal(id as nat) + "},\"playlistid\":0}"@,
        KodiCommand::QueueArtist(id) => "{\"item\":{\"artistid\":"@ + decimal(id as nat) + "},\"playlistid\":0}"@,
        KodiCommand::OpenPlaylist => "{\"item\":{\"playlistid\":0}}"@,
        KodiCommand::PlayPause(p) => "{\"playerid\":"@ + signed_decimal(p as int) + "}"@,
        KodiCommand::Stop(p) => "{\"playerid\":"@ + signed_decimal(p as int) + "}"@,
        KodiCommand::GoNext(p) => "{\"playerid\":"@ + signed_decimal(p as int) + ",\"to\":\"next\"}"@,
        KodiCommand::GoPrevious(p) => "{\"playerid\":"@ + signed_decimal(p as int) + ",\"to\":\"previous\"}"@,
        KodiCommand::GoToPosition(p, pos) => "{\"playerid\":"@ + signed_decimal(p as int) + ",\"to\":"@ + decimal(
            pos as nat,
        ) + "}"@,
        KodiCommand::Seek(p, secs) => "{\"playerid\":"@ + signed_decimal(p as int) + ",\"value\":{\"seconds\":"@
            + signed_decimal(secs as int) + "}}"@,
        KodiCommand::SetVolume(v) => "{\"volume\":"@ + decimal(v as nat) + "}"@,
        KodiCommand::GetActivePlayers => "{}"@,
        KodiCommand::GetAppProperties => "{\"properties\":[\"volume\",\"muted\"]}"@,
        KodiCommand::GetPlayerProperties(p) => "{\"playerid\":"@ + signed_decimal(p as int)
            + ",\"properties\":[\"speed\",\"time\",\"totaltime\",\"position\"]}"@,
        KodiCommand::GetItem(p) => "{\"playerid\":"@ + signed_decimal(p as int)
            + ",\"properties\":[\"title\",\"artist\",\"album\",\"duration\"]}"@,
        KodiCommand::SetRepeat(p, r) => "{\"playerid\":"@ + signed_decimal(p as int) + ",\"repeat\":\""@ + repeat_text(
            r,
        ) + "\"}"@,
        KodiCommand::GetSongDetails(id) => "{\"properties\":[\"file\"],\"songid\":"@ + decimal(id as nat) + "}"@,
    }
}

/// The JSON-RPC 2.0 request for a command (id 1), as compact JSON with keys
/// in ascending order.
pub open spec fn request_text(c: KodiCommand) -> Seq<char> {
    "{\"id\":1,\"jsonrpc\":\"2.0\",\"method\":\""@ + method_name(c) + "\",\"params\":"@ + params_text(c) + "}"@
}

/// Where requests are posted: the system's base URL and `/jsonrpc`.
pub open spec fn rpc_url_text(s: crate::config::KodiSystemView) -> Seq<char> {
    base_url_text(s) + "/jsonrpc"@
}

pub fn rpc_url(system: &KodiSystem) -> (r: String)
    ensures
        r@ == rpc_url_text(system@),
{
    let mut r = system.base_url();
    push_str(&mut r, "/jsonrpc");
    r
}

impl KodiCommand {
    pub fn method(&self) -> (r: &'static str)
        ensures
            r@ == method_name(*self),
    {
        match self {
            KodiCommand::GetArtists => "AudioLibrary.GetArtists",
            KodiCommand::GetAlbums => "AudioLibrary.GetAlbums",
            KodiCommand::GetSongs => "AudioLibrary.GetSongs",
            KodiCommand::GetSongsForAlbum(_) => "AudioLibrary.GetSongs",
            KodiCommand::GetSongsForArtist(_) => "AudioLibrary.GetSongs",
            KodiCommand::PlaylistClear => "Playlist.Clear",
            KodiCommand::QueueSong(_) => "Playlist.Add",
            KodiCommand::QueueAlbum(_) => "Playlist.Add",
            KodiCommand::QueueArtist(_) => "Playlist.Add",
            KodiCommand::OpenPlaylist => "Player.Open",
            KodiCommand::PlayPause(_) => "Player.PlayPause",
            KodiCommand::Stop(_) => "Player.Stop",
            KodiCommand::GoNext(_) => "Player.GoTo",
            KodiCommand::GoPrevious(_) => "Player.GoTo",
            KodiCommand::GoToPosition(_, _) => "Player.GoTo",
            KodiCommand::Seek(_, _) => "Player.Seek",
            KodiCommand::SetVolume(_) => "Application.SetVolume",
            KodiCommand::GetActivePlayers => "Player.GetActivePlayers",
            KodiCommand::GetAppProperties => "Application.GetProperties",
            KodiCommand::GetPlayerProperties(_) => "Player.GetProperties",
            KodiCommand::GetItem(_) => "Player.GetItem",
            KodiCommand::SetRepeat(_, _) => "Player.SetRepeat",
            KodiCommand::GetSongDetails(_) => "AudioLibrary.GetSongDetails",
        }
    }

    fn push_params(&self, s: &mut String)
        ensures
            final(s)@ == old(s)@ + params_text(*self),
    {
        match *self {
            KodiCommand::GetArtists => push_str(s, "{\"limits\":{\"end\":5000,\"start\":0},\"sort\":{\"method\":\"artist\"}}"),
            KodiCommand::GetAlbums => push_str(
                s,
                "{\"limits\":{\"end\":10000,\"start\":0},\"properties\":[\"artist\",\"year\"],\"sort\":{\"method\":\"album\"}}",
            ),
            KodiCommand::GetSongs => {
                push_str(s, "{\"limits\":{\"end\":50000,\"start\":0},");
                push_str(s, "\"properties\":[\"artist\",\"album\",\"track\",\"duration\"]");
                push_str(s, ",\"sort\":{\"method\":\"title\"}}");
            },
            KodiCommand::GetSongsForAlbum(id) => {
                push_str(s, "{\"filter\":{\"albumid\":");
                push_decimal(s, id as u64);
                push_str(s, "},");
                push_str(s, "\"properties\":[\"artist\",\"album\",\"track\",\"duration\"]");
                push_str(s, ",\"sort\":{\"method\":\"track\"}}");
            },
            KodiCommand::GetSongsForArtist(id) => {
                push_str(s, "{\"filter\":{\"artistid\":");
                push_decimal(s, id as u64);
                push_str(s, "},");
                push_str(s, "\"properties\":[\"artist\",\"album\",\"track\",\"duration\"]");
                push_str(s, ",\"sort\":{\"method\":\"album\"}}");
            },
            KodiCommand::PlaylistClear => push_str(s, "{\"playlistid\":0}"),
            KodiCommand::QueueSong(id) => {
                push_str(s, "{\"item\":{\"songid\":");
                push_decimal(s, id as u64);
                push_str(s, "},\"playlistid\":0}");
            },
            KodiCommand::QueueAlbum(id) => {
                push_str(s, "{\"item\":{\"albumid\":");
                push_decimal(s, id as u64);
                push_str(s, "},\"playlistid\":0}");
            },
            KodiCommand::QueueArtist(id) => {
                push_str(s, "{\"item\":{\"artistid\":");
                push_decimal(s, id as u64);
                push_str(s, "},\"playlistid\":0}");
            },
            KodiCommand::OpenPlaylist => push_str(s, "{\"item\":{\"playlistid\":0}}"),
            KodiCommand::PlayPause(p) | KodiCommand::Stop(p) => {
                push_str(s, "{\"playerid\":");
                push_signed(s, p);
                push_str(s, "}");
            },
            KodiCommand::GoNext(p) => {
                push_str(s, "{\"playerid\":");
                push_signed(s, p);
                push_str(s, ",\"to\":\"next\"}");
            },
            KodiCommand::GoPrevious(p) => {
                push_str(s, "{\"playerid\":");
                push_signed(s, p);
                push_str(s, ",\"to\":\"previous\"}");
            },
            KodiCommand::GoToPosition(p, pos) => {
                push_str(s, "{\"playerid\":");
                push_signed(s, p);
                push_str(s, ",\"to\":");
                push_decimal(s, pos as u64);
                push_str(s, "}");
            },
            KodiCommand::Seek(p, secs) => {
                push_str(s, "{\"playerid\":");
                push_signed(s, p);
                push_str(s, ",\"value\":{\"seconds\":");
                push_signed(s, secs as i64);
                push_str(s, "}}");
            },
            KodiCommand::SetVolume(v) => {
                push_str(s, "{\"volume\":");
                push_decimal(s, v as u64);
                push_str(s, "}");
            },
            KodiCommand::GetActivePlayers => push_str(s, "{}"),
            KodiCommand::GetAppProperties => push_str(s, "{\"properties\":[\"volume\",\"muted\"]}"),
            KodiCommand::GetPlayerProperties(p) => {
                push_str(s, "{\"playerid\":");
                push_signed(s, p);
                push_str(s, ",\"properties\":[\"speed\",\"time\",\"totaltime\",\"position\"]}");
            },
            KodiCommand::GetItem(p) => {
                push_str(s, "{\"playerid\":");
                push_signed(s, p);
                push_str(s, ",\"properties\":[\"title\",\"artist\",\"album\",\"duration\"]}");
            },
            KodiCommand::SetRepeat(p, r) => {
                push_str(s, "{\"playerid\":");
                push_signed(s, p);
                push_str(s, ",\"repeat\":\"");
                push_str(
                    s,
                    match r {
                        RepeatSetting::Off => "off",
                        RepeatSetting::One => "one",
                        RepeatSetting::All => "all",
                    },
                );
                push_str(s, "\"}");
            },
            KodiCommand::GetSongDetails(id) => {
                push_str(s, "{\"properties\":[\"file\"],\"songid\":");
                push_decimal(s, id as u64);
                push_str(s, "}");
            },
        }
    }

    /// The JSON-RPC request to post for this command.
    pub fn request_body(&self) -> (r: String)
        ensures
            r@ == request_text(*self),
    {
        let mut r = string_from("{\"id\":1,\"jsonrpc\":\"2.0\",\"method\":\"");
        push_str(&mut r, self.method());
        push_str(&mut r, "\",\"params\":");
        self.push_params(&mut r);
        push_str(&mut r, "}");
        r
    }
}

// ------------------------------------------------------------------
// Remote playback actions
// ------------------------------------------------------------------

/// What a playback target is: a song, an album or an artist by id.
pub open spec fn play_calls_spec(queue: KodiCommand) -> Seq<KodiCommand> {
    seq![KodiCommand::PlaylistClear, queue, KodiCommand::OpenPlaylist]
}

/// The playlist position a skip by `n` goes to: forward adds, backward
/// subtracts down to 0.
pub open spec fn skip_destination(pos: usize, n: usize, forward: bool) -> usize {
    if forward {
        (pos + n) as usize
    } else if pos >= n {
        (pos - n) as usize
    } else {
        0
    }
}

/// The Kodi calls that carry out a remote action, in order: playing
/// replaces the playlist with the item and opens it; queueing adds the item;
/// pause, stop, next and previous address the player; volume sets it;
/// skipping by a count goes to a playlist position (only when a player is
/// active). Local actions and the others need no call.
pub open spec fn remote_calls_spec(action: Action, player_id: Option<i64>, playlist_pos: usize) -> Seq<KodiCommand> {
    match action {
        Action::PlaySong(id) => play_calls_spec(KodiCommand::QueueSong(id)),
        Action::PlayAlbum(id) => play_calls_spec(KodiCommand::QueueAlbum(id)),
        Action::PlayArtist(id) => play_calls_spec(KodiCommand::QueueArtist(id)),
        Action::QueueSong(id) => seq![KodiCommand::QueueSong(id)],
        Action::QueueAlbum(id) => seq![KodiCommand::QueueAlbum(id)],
        Action::QueueArtist(id) => seq![KodiCommand::QueueArtist(id)],
        Action::TogglePause(p) => seq![KodiCommand::PlayPause(p)],
        Action::Stop(p) => seq![KodiCommand::Stop(p)],
        Action::Next(p) => seq![KodiCommand::GoNext(p)],
        Action::Prev(p) => seq![KodiCommand::GoPrevious(p)],
        Action::Volume(v) => seq![KodiCommand::SetVolume(v)],
        Action::SkipForward(n) => match player_id {
            Some(p) => seq![KodiCommand::GoToPosition(p, skip_destination(playlist_pos, n, true))],
            None => Seq::empty(),
        },
        Action::SkipBack(n) => match player_id {
            Some(p) => seq![KodiCommand::GoToPosition(p, skip_destination(playlist_pos, n, false))],
            None => Seq::empty(),
        },
        _ => Seq::empty(),
    }
}

/// A forward skip does not overflow the playlist position.
pub open spec fn remote_calls_ok(action: Action, player_id: Option<i64>, playlist_pos: usize) -> bool {
    match action {
        Action::SkipForward(n) => player_id is Some ==> playlist_pos + n <= usize::MAX,
        _ => true,
    }
}

fn play_calls(queue: KodiCommand) -> (r: Vec<KodiCommand>)
    ensures
        r@ == play_calls_spec(queue),
{
    let mut r: Vec<KodiCommand> = Vec::new();
    r.push(KodiCommand::PlaylistClear);
    r.push(queue);
    r.push(KodiCommand::OpenPlaylist);
    assert(r@ =~= play_calls_spec(queue));
    r
}

fn one_call(c: KodiCommand) -> (r: Vec<KodiCommand>)
    ensures
        r@ == seq![c],
{
    let mut r: Vec<KodiCommand> = Vec::new();
    r.push(c);
    assert(r@ =~= seq![c]);
    r
}

/// The calls for a remote action; `playlist_pos` is the position of the
/// current song in Kodi's playlist.
pub fn remote_calls(action: Action, player_id: Option<i64>, playlist_pos: usize) -> (r: Vec<KodiCommand>)
    requires
        remote_calls_ok(action, player_id, playlist_pos),
    ensures
        r@ == remote_calls_spec(action, player_id, playlist_pos),
{
    match action {
        Action::PlaySong(id) => play_calls(KodiCommand::QueueSong(id)),
        Action::PlayAlbum(id) => play_calls(KodiCommand::QueueAlbum(id)),
        Action::PlayArtist(id) => play_calls(KodiCommand::QueueArtist(id)),
        Action::QueueSong(id) => one_call(KodiCommand::QueueSong(id)),
        Action::QueueAlbum(id) => one_call(KodiCommand::QueueAlbum(id)),
        Action::QueueArtist(id) => one_call(KodiCommand::QueueArtist(id)),
        Action::TogglePause(p) => one_call(KodiCommand::PlayPause(p)),
        Action::Stop(p) => one_call(KodiCommand::Stop(p)),
        Action::Next(p) => one_call(KodiCommand::GoNext(p)),
        Action::Prev(p) => one_call(KodiCommand::GoPrevious(p)),
        Action::Volume(v) => one_call(KodiCommand::SetVolume(v)),
        Action::SkipForward(n) => match player_id {
            Some(p) => one_call(KodiCommand::GoToPosition(p, playlist_pos + n)),
            None => Vec::new(),
        },
        Action::SkipBack(n) => match player_id {
            Some(p) => {
                let pos = if playlist_pos >= n { playlist_pos - n } else { 0 };
                one_call(KodiCommand::GoToPosition(p, pos))
            },
            None => Vec::new(),
        },
        _ => {
            let r: Vec<KodiCommand> = Vec::new();
            assert(r@ =~= remote_calls_spec(action, player_id, playlist_pos));
            r
        },
    }
}

/// The call that lists the songs of an album (`is_album`) or of an artist.
pub open spec fn song_list_spec(id: u32, is_album: bool) -> KodiCommand {
    if is_album {
        KodiCommand::GetSongsForAlbum(id)
    } else {
        KodiCommand::GetSongsForArtist(id)
    }
}

pub fn song_list_command(id: u32, is_album: bool) -> (c: KodiCommand)
    ensures
        c == song_list_spec(id, is_album),
{
    if is_album {
        KodiCommand::GetSongsForAlbum(id)
    } else {
        KodiCommand::GetSongsForArtist(id)
    }
}

/// For a local action on an album or an artist: the call that lists its
/// songs, and whether they replace the local queue (play) or join it
/// (queue).
pub open spec fn local_list_spec(action: Action) -> Option<(KodiCommand, bool)> {
    match action {
        Action::LocalPlayAlbum(id) => Some((song_list_spec(id, true), true)),
        Action::LocalPlayArtist(id) => Some((song_list_spec(id, false), true)),
        Action::LocalQueueAlbum(id) => Some((song_list_spec(id, true), false)),
        Action::LocalQueueArtist(id) => Some((song_list_spec(id, false), false)),
        _ => None,
    }
}

pub fn local_song_list(action: Action) -> (r: Option<(KodiCommand, bool)>)
    ensures
        r == local_list_spec(action),
{
    match action {
        Action::LocalPlayAlbum(id) => Some((song_list_command(id, true), true)),
        Action::LocalPlayArtist(id) => Some((song_list_command(id, false), true)),
        Action::LocalQueueAlbum(id) => Some((song_list_command(id, true), false)),
        Action::LocalQueueArtist(id) => Some((song_list_command(id, false), false)),
        _ => None,
    }
}

// ------------------------------------------------------------------
// Running a list of calls
// ------------------------------------------------------------------

/// The next step of running a list of calls in order.
pub enum SequenceNext {
    Call(KodiCommand),
    Finished(Result<(), String>),
}

/// Running `calls` in order and stopping at the first failure: with `made`
/// calls done and succeeded, and `failure` the error of the call just made
/// (`None` when it succeeded, and before the first call), the next call to
/// make, or the end of the run with its result.
pub open spec fn sequence_step_spec(calls: Seq<KodiCommand>, made: nat, failure: Option<Seq<char>>) -> (
    Option<KodiCommand>,
    Option<Result<(), Seq<char>>>,
) {
    match failure {
        Some(e) => (None, Some(Err(e))),
        None => if made < calls.len() {
            (Some(calls[made as int]), None)
        } else {
            (None, Some(Ok(())))
        },
    }
}

pub open spec fn sequence_next_view(r: SequenceNext) -> (Option<KodiCommand>, Option<Result<(), Seq<char>>>) {
    match r {
        SequenceNext::Call(c) => (Some(c), None),
        SequenceNext::Finished(Ok(())) => (None, Some(Ok(()))),
        SequenceNext::Finished(Err(e)) => (None, Some(Err(e@))),
    }
}

/// One step of running a list of calls: the next call after `made`
/// successful ones, or the end of the run, at once with the error when the
/// call just made failed.
pub fn sequence_step(calls: &Vec<KodiCommand>, made: usize, failure: Option<String>) -> (r: SequenceNext)
    requires
        made <= calls.len(),
    ensures
        sequence_next_view(r) == sequence_step_spec(calls@, made as nat, opt_seq(failure)),
{
    match failure {
        Some(e) => SequenceNext::Finished(Err(e)),
        None => if made < calls.len() {
            SequenceNext::Call(calls[made])
        } else {
            SequenceNext::Finished(Ok(()))
        },
    }
}

/// Running the calls step by step, where `outcomes[k]` is what the `k`-th
/// call gives (`None` for success): how many calls are made, and the
/// result of the run.
pub open spec fn run_steps(
    calls: Seq<KodiCommand>,
    outcomes: Seq<Option<Seq<char>>>,
    made: nat,
    failure: Option<Seq<char>>,
) -> (nat, Result<(), Seq<char>>)
    decreases calls.len() - made, (if failure is None { 1int } else { 0int }),
{
    let (next, done) = sequence_step_spec(calls, made, failure);
    match next {
        Some(_) => {
            if made < calls.len() {
                match outcomes[made as int] {
                    None => run_steps(calls, outcomes, made + 1, None),
                    Some(e) => run_steps(calls, outcomes, made, Some(e)),
                }
            } else {
                (made, Ok(()))
            }
        },
        None => match done {
            Some(res) => (if failure is Some { made + 1 } else { made }, res),
            None => (made, Ok(())),
        },
    }
}

/// Kodi's repeat setting after `r` is pressed: off, one, all, and round.
pub open spec fn next_repeat_setting_spec(current: Seq<char>) -> Seq<char> {
    if current == "off"@ {
        "one"@
    } else if current == "one"@ {
        "all"@
    } else {
        "off"@
    }
}

pub fn next_repeat_setting(current: &str) -> (r: &'static str)
    ensures
        r@ == next_repeat_setting_spec(current@),
{
    let c = crate::text::chars_of(current);
    if crate::text::equals_lit(&c, "off") {
        "one"
    } else if crate::text::equals_lit(&c, "one") {
        "all"
    } else {
        "off"
    }
}

/// The setting that follows `current` when `r` is pressed.
pub open spec fn next_repeat_of(current: Seq<char>) -> RepeatSetting {
    if current == "off"@ {
        RepeatSetting::One
    } else if current == "one"@ {
        RepeatSetting::All
    } else {
        RepeatSetting::Off
    }
}

/// The call that moves a player's repeat setting on from `current`.
pub fn set_repeat_command(player_id: i64, current: &str) -> (c: KodiCommand)
    ensures
        c == KodiCommand::SetRepeat(player_id, next_repeat_of(current@)),
        repeat_text(next_repeat_of(current@)) == next_repeat_setting_spec(current@),
{
    let c = crate::text::chars_of(current);
    if crate::text::equals_lit(&c, "off") {
        KodiCommand::SetRepeat(player_id, RepeatSetting::One)
    } else if crate::text::equals_lit(&c, "one") {
        KodiCommand::SetRepeat(player_id, RepeatSetting::All)
    } else {
        KodiCommand::SetRepeat(player_id, RepeatSetting::Off)
    }
}

// ------------------------------------------------------------------
// Fetching a song's file
// ------------------------------------------------------------------

/// Bytes left as they are in a URL path: ASCII letters, digits and `-_.~`.
pub open spec fn unreserved(b: u8) -> bool {
    (48 <= b <= 57) || (65 <= b <= 90) || (97 <= b <= 122) || b == 45 || b == 95 || b == 46 || b == 126
}

/// An uppercase hexadecimal digit.
pub open spec fn hex_upper(d: nat) -> char {
    if d < 10 {
        (48 + d) as char
    } else {
        (55 + d) as char
    }
}

/// One byte in a URL path: itself when unreserved, else `%` and two
/// uppercase hexadecimal digits.
pub open spec fn percent_byte(b: u8) -> Seq<char> {
    if unreserved(b) {
        seq![b as char]
    } else {
        seq!['%', hex_upper(b as nat / 16), hex_upper(b as nat % 16)]
    }
}

/// The bytes percent-encoded one after another.
pub open spec fn percent_encoded(bytes: Seq<u8>) -> Seq<char>
    decreases bytes.len(),
{
    if bytes.len() == 0 {
        Seq::empty()
    } else {
        percent_encoded(bytes.drop_last()) + percent_byte(bytes.last())
    }
}

/// Where Kodi serves a file: the system's base URL, `/vfs/` and the file's
/// path (its UTF-8 bytes) percent-encoded.
pub open spec fn vfs_url_text(s: crate::config::KodiSystemView, path: Seq<u8>) -> Seq<char> {
    base_url_text(s) + "/vfs/"@ + percent_encoded(path)
}

fn hex_upper_char(d: u8) -> (c: char)
    requires
        d < 16,
    ensures
        c == hex_upper(d as nat),
{
    if d < 10 {
        (48 + d) as char
    } else {
        (55 + d) as char
    }
}

pub fn vfs_url(system: &KodiSystem, file_path: &str) -> (r: String)
    ensures
        r@ == vfs_url_text(system@, vstd::utf8::encode_utf8(file_path@)),
{
    let mut r = system.base_url();
    push_str(&mut r, "/vfs/");
    let ghost start = r@;
    let bytes = file_path.as_bytes();
    let n = bytes.len();
    for i in 0..n
        invariant
            n == bytes@.len(),
            bytes@ == vstd::utf8::encode_utf8(file_path@),
            r@ == start + percent_encoded(bytes@.take(i as int)),
    {
        let b = bytes[i];
        let ghost before = r@;
        if (48 <= b && b <= 57) || (65 <= b && b <= 90) || (97 <= b && b <= 122) || b == 45 || b == 95 || b == 46
            || b == 126 {
            push_char(&mut r, b as char);
        } else {
            push_char(&mut r, '%');
            push_char(&mut r, hex_upper_char(b / 16));
            push_char(&mut r, hex_upper_char(b % 16));
        }
        proof {
            assert(bytes@.take(i + 1).drop_last() =~= bytes@.take(i as int));
            assert(r@ =~= before + percent_byte(b));
        }
    }
    proof {
        assert(bytes@.take(n as int) =~= bytes@);
    }
    r
}

// ------------------------------------------------------------------
// Polling the player status
// ------------------------------------------------------------------

/// One entry of the active players list: whether its `type` is `"audio"`,
/// and its `playerid` when that is an integer.
#[derive(Debug, Clone, Copy, PartialEq, Eq, Structural)]
pub struct PlayerEntry {
    pub is_audio: bool,
    pub player_id: Option<i64>,
}

/// How far a status poll has got, with what it has learnt so far.
#[derive(Debug, Clone, Copy, PartialEq, Eq, Structural)]
pub enum StatusPoll {
    AskPlayers,
    AskVolume { audio_player: Option<i64> },
    AskProperties { player: i64, volume: u32, muted: bool },
    AskItem { player: i64, volume: u32, muted: bool, speed: i64, position: u32, duration: u32 },
}

/// What Kodi answered, read into plain values: missing or mistyped fields
/// are `None`.
pub enum StatusReply {
    Players(Vec<PlayerEntry>),
    Volume { volume: Option<u64>, muted: Option<bool> },
    Properties { speed: Option<i64>, time: ClockTime, total: ClockTime },
    Item { title: Option<String>, artist: Option<String>, album: Option<String> },
}

/// The next call to make, or the finished status.
pub enum StatusNext {
    Ask(StatusPoll, KodiCommand),
    Done(PlayerStatus),
}

/// The first audio player's id, if that player has an integer id.
pub open spec fn audio_player(players: Seq<PlayerEntry>) -> Option<i64> {
    if exists|i: int| 0 <= i < players.len() && (#[trigger] players[i]).is_audio {
        players[choose|i: int| 0 <= i < players.len() && players[i].is_audio && forall|j: int| 0 <= j < i ==> !(#[trigger] players[j]).is_audio].player_id
    } else {
        None
    }
}

/// A volume as read: 100 when missing, narrowed to 32 bits.
pub open spec fn volume_of(v: Option<u64>) -> u32 {
    match v {
        Some(x) => x as u32,
        None => 100,
    }
}

pub open spec fn text_or_empty(t: Option<Seq<char>>) -> Seq<char> {
    match t {
        Some(s) => s,
        None => Seq::empty(),
    }
}

pub open spec fn opt_seq(t: Option<String>) -> Option<Seq<char>> {
    match t {
        Some(s) => Some(s@),
        None => None,
    }
}

/// A reply fits the step it answers, and clock times fit their arithmetic.
pub open spec fn reply_fits(step: StatusPoll, reply: StatusReply) -> bool {
    match step {
        StatusPoll::AskPlayers => reply is Players,
        StatusPoll::AskVolume { .. } => reply is Volume,
        StatusPoll::AskProperties { .. } => match reply {
            StatusReply::Properties { time, total, .. } => clock_fits(time) && clock_fits(total),
            _ => false,
        },
        StatusPoll::AskItem { .. } => reply is Item,
    }
}

/// The outcome of one step: after the players, ask for volume and mute;
/// then, with no audio player, the poll is done (nothing playing); with one,
/// ask for its speed and times, then for its item, and assemble the status
/// (playing when the speed is not 0).
pub open spec fn status_step_spec(step: StatusPoll, reply: StatusReply) -> (Option<(StatusPoll, KodiCommand)>, Option<PlayerStatusView>) {
    match (step, reply) {
        (StatusPoll::AskPlayers, StatusReply::Players(players)) => (
            Some((StatusPoll::AskVolume { audio_player: audio_player(players@) }, KodiCommand::GetAppProperties)),
            None,
        ),
        (StatusPoll::AskVolume { audio_player: player }, StatusReply::Volume { volume, muted }) => {
            let vol = volume_of(volume);
            let m = match muted {
                Some(b) => b,
                None => false,
            };
            match player {
                Some(pid) => (
                    Some((StatusPoll::AskProperties { player: pid, volume: vol, muted: m }, KodiCommand::GetPlayerProperties(pid))),
                    None,
                ),
                None => (
                    None,
                    Some(PlayerStatusView {
                        player_id: None,
                        playing: false,
                        current_item: None,
                        position: 0,
                        duration: 0,
                        speed: 0,
                        volume: vol,
                        muted: m,
                    }),
                ),
            }
        },
        (StatusPoll::AskProperties { player, volume, muted }, StatusReply::Properties { speed, time, total }) => {
            let sp = match speed {
                Some(x) => x,
                None => 0,
            };
            (
                Some((StatusPoll::AskItem {
                    player,
                    volume,
                    muted,
                    speed: sp,
                    position: (clock_total(time) as u64) as u32,
                    duration: (clock_total(total) as u64) as u32,
                }, KodiCommand::GetItem(player))),
                None,
            )
        },
        (StatusPoll::AskItem { player, volume, muted, speed, position, duration }, StatusReply::Item { title, artist, album }) => (
            None,
            Some(PlayerStatusView {
                player_id: Some(player),
                playing: speed != 0,
                current_item: Some(CurrentItemView {
                    title: text_or_empty(opt_seq(title)),
                    artist: text_or_empty(opt_seq(artist)),
                    album: text_or_empty(opt_seq(album)),
                    duration,
                }),
                position,
                duration,
                speed,
                volume,
                muted,
            }),
        ),
        _ => (None, None),
    }
}

/// Whether `reply` answers `step` and its clock times fit (`reply_fits`);
/// a caller checks this before `status_step`.
pub fn reply_allowed(step: StatusPoll, reply: &StatusReply) -> (r: bool)
    ensures
        r == reply_fits(step, *reply),
{
    match step {
        StatusPoll::AskPlayers => matches!(reply, StatusReply::Players(_)),
        StatusPoll::AskVolume { .. } => matches!(reply, StatusReply::Volume { .. }),
        StatusPoll::AskProperties { .. } => match reply {
            StatusReply::Properties { time, total, .. } => time.fits() && total.fits(),
            _ => false,
        },
        StatusPoll::AskItem { .. } => matches!(reply, StatusReply::Item { .. }),
    }
}

/// The first call of a status poll: the active players.
pub fn status_start() -> (r: (StatusPoll, KodiCommand))
    ensures
        r == (StatusPoll::AskPlayers, KodiCommand::GetActivePlayers),
{
    (StatusPoll::AskPlayers, KodiCommand::GetActivePlayers)
}

fn find_audio_player(players: &Vec<PlayerEntry>) -> (r: Option<i64>)
    ensures
        r == audio_player(players@),
{
    let n = players.len();
    for i in 0..n
        invariant
            n == players@.len(),
            forall|j: int| 0 <= j < i ==> !(#[trigger] players@[j]).is_audio,
    {
        if players[i].is_audio {
            proof {
                let c = choose|c: int| 0 <= c < players@.len() && players@[c].is_audio && forall|j: int| 0 <= j < c ==> !(#[trigger] players@[j]).is_audio;
                if c < i {
                } else if c > i {
                    assert(!players@[i as int].is_audio);
                }
            }
            return players[i].player_id;
        }
    }
    None
}

fn text_or_blank(t: Option<String>) -> (r: String)
    ensures
        r@ == text_or_empty(opt_seq(t)),
{
    match t {
        Some(s) => s,
        None => String::new(),
    }
}

/// One step of a status poll: what Kodi answered to the current step gives
/// the next call to make or the finished status.
pub fn status_step(step: StatusPoll, reply: StatusReply) -> (r: StatusNext)
    requires
        reply_fits(step, reply),
    ensures
        match r {
            StatusNext::Ask(s, c) => status_step_spec(step, reply) == (Some((s, c)), None::<PlayerStatusView>),
            StatusNext::Done(st) => status_step_spec(step, reply) == (None::<(StatusPoll, KodiCommand)>, Some(st@)),
        },
{
    match step {
        StatusPoll::AskPlayers => match reply {
            StatusReply::Players(players) => {
                let player = find_audio_player(&players);
                StatusNext::Ask(StatusPoll::AskVolume { audio_player: player }, KodiCommand::GetAppProperties)
            },
            _ => StatusNext::Ask(step, KodiCommand::GetActivePlayers),
        },
        StatusPoll::AskVolume { audio_player: player } => match reply {
            StatusReply::Volume { volume, muted } => {
                let vol: u32 = match volume {
                    Some(x) => x as u32,
                    None => 100,
                };
                let m = match muted {
                    Some(b) => b,
                    None => false,
                };
                match player {
                    Some(pid) => StatusNext::Ask(
                        StatusPoll::AskProperties { player: pid, volume: vol, muted: m },
                        KodiCommand::GetPlayerProperties(pid),
                    ),
                    None => StatusNext::Done(
                        PlayerStatus {
                            player_id: None,
                            playing: false,
                            current_item: None,
                            position: 0,
                            duration: 0,
                            speed: 0,
                            volume: vol,
                            muted: m,
                        },
                    ),
                }
            },
            _ => StatusNext::Ask(step, KodiCommand::GetActivePlayers),
        },
        StatusPoll::AskProperties { player, volume, muted } => match reply {
            StatusReply::Properties { speed, time, total } => {
                let sp = match speed {
                    Some(x) => x,
                    None => 0,
                };
                let position = time_to_seconds(&time);
                let duration = time_to_seconds(&total);
                StatusNext::Ask(
                    StatusPoll::AskItem { player, volume, muted, speed: sp, position, duration },
                    KodiCommand::GetItem(player),
                )
            },
            _ => StatusNext::Ask(step, KodiCommand::GetActivePlayers),
        },
        StatusPoll::AskItem { player, volume, muted, speed, position, duration } => match reply {
            StatusReply::Item { title, artist, album } => {
                let item = CurrentItem {
                    title: text_or_blank(title),
                    artist: text_or_blank(artist),
                    album: text_or_blank(album),
                    duration,
                };
                StatusNext::Done(
                    PlayerStatus {
                        player_id: Some(player),
                        playing: speed != 0,
                        current_item: Some(item),
                        position,
                        duration,
                        speed,
                        volume,
                        muted,
                    },
                )
            },
            _ => StatusNext::Ask(step, KodiCommand::GetActivePlayers),
        },
    }
}

} // verus!
