//! Local playback decisions: the play queue, auto-advance at the end of a
//! track, skipping, and what to show when audio arrives or fails.
use vstd::prelude::*;
use crate::app::{opt_song_view, other_backend, App, AppView, PlaybackBackend, RepeatMode};
use crate::kodi::{Song, SongView};
use crate::search::songs_view;
use crate::text::{decimal, push_decimal, push_str, string_from};

verus! {

/// Auto-advance when the local player has run dry: repeat the current track,
/// go to the next one, or wrap to the first with queue repeat; `None` when
/// playback ends (the current song is then cleared).
pub open spec fn advance(v: AppView) -> (AppView, Option<SongView>) {
    if v.repeat_mode == RepeatMode::Track {
        (AppView { local_fetching: true, ..v }, Some(v.local_queue[v.local_queue_pos as int]))
    } else {
        let next_pos = v.local_queue_pos + 1;
        if next_pos < v.local_queue.len() {
            let s = v.local_queue[next_pos];
            (AppView {
                local_queue_pos: next_pos as usize,
                local_current_song: Some(s),
                local_fetching: true,
                ..v
            }, Some(s))
        } else if v.repeat_mode == RepeatMode::Queue && v.local_queue.len() > 0 {
            let s = v.local_queue[0];
            (AppView { local_queue_pos: 0, local_current_song: Some(s), local_fetching: true, ..v }, Some(s))
        } else {
            (AppView { local_current_song: None, ..v }, None)
        }
    }
}

/// A tick of the local player: in local mode the pause flag and position
/// are copied from the player, and when the player is empty, nothing is
/// being fetched and a song was playing, playback advances. Returns the song
/// whose audio must be fetched next.
pub open spec fn tick(v: AppView, paused: bool, position: u32, empty: bool) -> (AppView, Option<SongView>) {
    if v.backend == PlaybackBackend::Local {
        let w = AppView { local_paused: paused, local_position: position, ..v };
        if empty && !w.local_fetching && w.local_current_song is Some {
            advance(w)
        } else {
            (w, None)
        }
    } else {
        (v, None)
    }
}

/// Advancing does not index past the queue or overflow.
pub open spec fn tick_ok(v: AppView, empty: bool) -> bool {
    (v.backend == PlaybackBackend::Local && empty && !v.local_fetching && v.local_current_song is Some)
        ==> (if v.repeat_mode == RepeatMode::Track {
        v.local_queue_pos < v.local_queue.len()
    } else {
        v.local_queue_pos < usize::MAX
    })
}

pub open spec fn opt_view(s: Option<Song>) -> Option<SongView> {
    opt_song_view(s)
}

/// The first song with the given id.
pub open spec fn find_song(songs: Seq<SongView>, id: u32) -> Option<int> {
    if exists|i: int| 0 <= i < songs.len() && (#[trigger] songs[i]).songid == id {
        Some(choose|i: int| 0 <= i < songs.len() && songs[i].songid == id && forall|j: int| 0 <= j < i ==> (#[trigger] songs[j]).songid != id)
    } else {
        None
    }
}

/// "No songs found".
pub open spec fn no_songs_text() -> Seq<char> {
    seq!['N', 'o', ' ', 's', 'o', 'n', 'g', 's', ' ', 'f', 'o', 'u', 'n', 'd']
}

/// "<n> songs added to queue".
pub open spec fn added_text(n: nat) -> Seq<char> {
    decimal(n) + seq![' ', 's', 'o', 'n', 'g', 's', ' ', 'a', 'd', 'd', 'e', 'd', ' ', 't', 'o', ' ', 'q', 'u', 'e', 'u', 'e']
}

/// A list of songs for local playback arrived. An empty list only says so.
/// Otherwise the list replaces the queue (`clear`) or is appended to it;
/// playback of its first song starts when the queue was replaced or nothing
/// was playing; else the message counts the songs added.
pub open spec fn songs_ready(v: AppView, songs: Seq<SongView>, clear: bool) -> (AppView, Option<(SongView, bool)>) {
    if songs.len() == 0 {
        (AppView { status_message: Some(no_songs_text()), ..v }, None)
    } else {
        let was_idle = v.local_current_song is None;
        let v1 = if clear {
            AppView {
                local_queue: Seq::empty(),
                local_queue_pos: 0,
                local_current_song: None,
                local_fetching: false,
                local_position: 0,
                ..v
            }
        } else {
            v
        };
        let start_pos = v1.local_queue.len();
        let v2 = AppView { local_queue: v1.local_queue + songs, ..v1 }.refiltered();
        if clear || was_idle {
            (AppView {
                local_queue_pos: if clear { 0 } else { start_pos as usize },
                local_fetching: true,
                ..v2
            }, Some((songs[0], clear)))
        } else {
            (AppView { status_message: Some(added_text(songs.len())), ..v2 }, None)
        }
    }
}

/// The message after audio was handed to the player: "Playing locally" for
/// a replacing play, "Queued" otherwise.
pub open spec fn audio_text(playing: bool, label: Seq<char>, kb: nat) -> Seq<char> {
    (if playing {
        seq!['P', 'l', 'a', 'y', 'i', 'n', 'g', ' ', 'l', 'o', 'c', 'a', 'l', 'l', 'y', ':', ' ']
    } else {
        seq!['Q', 'u', 'e', 'u', 'e', 'd', ':', ' ']
    }) + label + seq![' ', '('] + decimal(kb) + seq![' ', 'K', 'B', ')']
}

pub open spec fn playback_error_text(e: Seq<char>) -> Seq<char> {
    seq!['P', 'l', 'a', 'y', 'b', 'a', 'c', 'k', ' ', 'e', 'r', 'r', 'o', 'r', ':', ' '] + e
}

/// The player took (or refused) the audio of `song`. Fetching is over. A
/// replacing play makes the song current, unpaused at position 0; a queued
/// song becomes current only when nothing was, and then it is the first of
/// the queue; a refusal is reported.
pub open spec fn audio_result(v: AppView, song: SongView, clear: bool, kb: nat, error: Option<Seq<char>>) -> AppView {
    let w = AppView { local_fetching: false, ..v };
    match error {
        None => if clear {
            AppView {
                local_current_song: Some(song),
                local_paused: false,
                local_position: 0,
                status_message: Some(audio_text(true, song.label, kb)),
                ..w
            }
        } else if w.local_current_song is None {
            AppView {
                local_current_song: if w.local_queue.len() > 0 { Some(w.local_queue[0]) } else { None },
                local_queue_pos: 0,
                status_message: Some(audio_text(false, song.label, kb)),
                ..w
            }
        } else {
            w
        },
        Some(e) => AppView { status_message: Some(playback_error_text(e)), ..w },
    }
}

/// The new position of a local skip by `n`: forward stops at the last
/// song, backward at the first.
pub open spec fn skip_target(pos: usize, len: nat, n: usize, forward: bool) -> usize {
    if forward {
        if pos + n < len - 1 {
            (pos + n) as usize
        } else {
            (len - 1) as usize
        }
    } else if pos >= n {
        (pos - n) as usize
    } else {
        0
    }
}

/// A local skip does not overflow, and lands inside the queue.
pub open spec fn skip_ok(v: AppView, n: usize, forward: bool) -> bool {
    v.local_queue.len() > 0 ==> if forward {
        v.local_queue_pos + n <= usize::MAX
    } else {
        v.local_queue_pos >= n ==> v.local_queue_pos - n < v.local_queue.len()
    }
}

/// Skipping through the local queue: nothing for an empty queue; otherwise
/// the song at the new position becomes current, to be fetched from its
/// start.
pub open spec fn local_skip_effect(v: AppView, n: usize, forward: bool) -> (AppView, Option<SongView>) {
    if v.local_queue.len() == 0 {
        (v, None)
    } else {
        let p = skip_target(v.local_queue_pos, v.local_queue.len(), n, forward);
        let s = v.local_queue[p as int];
        (AppView {
            local_queue_pos: p,
            local_current_song: Some(s),
            local_fetching: true,
            local_position: 0,
            ..v
        }, Some(s))
    }
}

/// The local queue emptied, and the list recomputed.
pub open spec fn cleared_queue(v: AppView) -> AppView {
    (AppView {
        local_queue: Seq::empty(),
        local_queue_pos: 0,
        local_current_song: None,
        local_fetching: false,
        local_position: 0,
        ..v
    }).refiltered()
}

/// The position that a skip by `n` lands on.
pub fn skip_position(pos: usize, len: usize, n: usize, forward: bool) -> (p: usize)
    requires
        len > 0,
        forward ==> pos + n <= usize::MAX,
    ensures
        p == skip_target(pos, len as nat, n, forward),
{
    if forward {
        let t = pos + n;
        if t < len - 1 { t } else { len - 1 }
    } else if pos >= n {
        pos - n
    } else {
        0
    }
}

/// A copy of a song list, song for song.
pub fn copy_songs(v: &Vec<Song>) -> (r: Vec<Song>)
    ensures
        songs_view(r@) == songs_view(v@),
{
    let n = v.len();
    let mut r: Vec<Song> = Vec::new();
    for i in 0..n
        invariant
            n == v@.len(),
            r@.len() == i,
            forall|j: int| 0 <= j < i ==> #[trigger] r@[j]@ == v@[j]@,
    {
        r.push(v[i].clone());
    }
    assert(songs_view(r@) =~= songs_view(v@));
    r
}

fn clone_opt_song(s: &Option<Song>) -> (r: Option<Song>)
    ensures
        opt_song_view(r) == opt_song_view(*s),
{
    match s {
        Some(x) => Some(x.clone()),
        None => None,
    }
}

impl App {
    /// An error from a background task: shown, and loading is over.
    pub fn show_error(&mut self, message: String)
        ensures
            final(self)@ == (AppView { status_message: Some(message@), loading: false, ..old(self)@ }),
    {
        self.status_message = Some(message);
        self.loading = false;
    }

    fn repeat_track(&mut self) -> (r: Option<Song>)
        requires
            old(self).repeat_mode == RepeatMode::Track,
            old(self).local_queue_pos < old(self).local_queue@.len(),
        ensures
            (final(self)@, opt_view(r)) == advance(old(self)@),
    {
        let s = self.local_queue[self.local_queue_pos].clone();
        self.local_fetching = true;
        Some(s)
    }

    fn move_to(&mut self, pos: usize) -> (r: Option<Song>)
        requires
            pos < old(self).local_queue@.len(),
        ensures
            r matches Some(s) && s@ == old(self)@.local_queue[pos as int],
            final(self)@ == (AppView {
                local_queue_pos: pos,
                local_current_song: Some(old(self)@.local_queue[pos as int]),
                local_fetching: true,
                ..old(self)@
            }),
    {
        let s = self.local_queue[pos].clone();
        let c = s.clone();
        self.local_queue_pos = pos;
        self.local_current_song = Some(c);
        self.local_fetching = true;
        Some(s)
    }

    fn advance_local(&mut self) -> (r: Option<Song>)
        requires
            old(self).repeat_mode == RepeatMode::Track ==> old(self).local_queue_pos < old(self).local_queue@.len(),
            old(self).repeat_mode != RepeatMode::Track ==> old(self).local_queue_pos < usize::MAX,
        ensures
            (final(self)@, opt_view(r)) == advance(old(self)@),
    {
        if self.repeat_mode == RepeatMode::Track {
            return self.repeat_track();
        }
        let next_pos = self.local_queue_pos + 1;
        if next_pos < self.local_queue.len() {
            self.move_to(next_pos)
        } else if self.repeat_mode == RepeatMode::Queue && self.local_queue.len() > 0 {
            self.move_to(0)
        } else {
            self.local_current_song = None;
            None
        }
    }

    /// One tick of the local player; returns the song to fetch next, if any.
    pub fn local_tick(&mut self, paused: bool, position: u32, empty: bool) -> (r: Option<Song>)
        requires
            tick_ok(old(self)@, empty),
        ensures
            (final(self)@, opt_view(r)) == tick(old(self)@, paused, position, empty),
    {
        if self.backend == PlaybackBackend::Local {
            self.local_paused = paused;
            self.local_position = position;
            if empty && !self.local_fetching && self.local_current_song.is_some() {
                self.advance_local()
            } else {
                None
            }
        } else {
            None
        }
    }

    fn reset_local_queue(&mut self)
        ensures
            final(self)@ == (AppView {
                local_queue: Seq::empty(),
                local_queue_pos: 0,
                local_current_song: None,
                local_fetching: false,
                local_position: 0,
                ..old(self)@
            }),
    {
        self.local_queue.clear();
        self.local_queue_pos = 0;
        self.local_current_song = None;
        self.local_fetching = false;
        self.local_position = 0;
        assert(songs_view(self.local_queue@) =~= Seq::<SongView>::empty());
    }

    fn append_songs(&mut self, songs: &Vec<Song>)
        ensures
            final(self)@ == (AppView { local_queue: old(self)@.local_queue + songs_view(songs@), ..old(self)@ }),
    {
        let mut copy = copy_songs(songs);
        let ghost q = self.local_queue@;
        self.local_queue.append(&mut copy);
        assert(songs_view(self.local_queue@) =~= songs_view(q) + songs_view(songs@));
    }

    /// A song list for local playback arrived; returns the song to fetch and
    /// whether it replaces what is playing.
    pub fn local_songs_ready(&mut self, songs: Vec<Song>, clear: bool) -> (r: Option<(Song, bool)>)
        requires
            old(self)@.can_refilter(),
        ensures
            ({
                let (w, f) = songs_ready(old(self)@, songs_view(songs@), clear);
                &&& final(self)@ == w
                &&& match r {
                    Some((s, c)) => f == Some((s@, c)),
                    None => f is None,
                }
            }),
    {
        if songs.len() == 0 {
            proof {
                reveal_strlit("No songs found");
            }
            let msg = string_from("No songs found");
            assert(msg@ =~= no_songs_text());
            self.status_message = Some(msg);
            return None;
        }
        if clear {
            self.songs_replace(songs)
        } else if self.local_current_song.is_none() {
            self.songs_append_idle(songs)
        } else {
            self.songs_append_busy(songs)
        }
    }

    fn songs_replace(&mut self, songs: Vec<Song>) -> (r: Option<(Song, bool)>)
        requires
            songs@.len() > 0,
            old(self)@.can_refilter(),
        ensures
            ({
                let (w, f) = songs_ready(old(self)@, songs_view(songs@), true);
                &&& final(self)@ == w
                &&& match r {
                    Some((s, c)) => f == Some((s@, c)),
                    None => f is None,
                }
            }),
    {
        self.reset_local_queue();
        let first = songs[0].clone();
        let ghost v1 = self@;
        self.append_songs(&songs);
        assert(self@.can_refilter() == v1.can_refilter());
        self.apply_filter();
        self.begin_fetch(0);
        Some((first, true))
    }

    fn songs_append_idle(&mut self, songs: Vec<Song>) -> (r: Option<(Song, bool)>)
        requires
            songs@.len() > 0,
            old(self).local_current_song is None,
            old(self)@.can_refilter(),
        ensures
            ({
                let (w, f) = songs_ready(old(self)@, songs_view(songs@), false);
                &&& final(self)@ == w
                &&& match r {
                    Some((s, c)) => f == Some((s@, c)),
                    None => f is None,
                }
            }),
    {
        let start_pos = self.local_queue.len();
        let first = songs[0].clone();
        let ghost v1 = self@;
        self.append_songs(&songs);
        assert(self@.can_refilter() == v1.can_refilter());
        self.apply_filter();
        self.begin_fetch(start_pos);
        Some((first, false))
    }

    fn songs_append_busy(&mut self, songs: Vec<Song>) -> (r: Option<(Song, bool)>)
        requires
            songs@.len() > 0,
            old(self).local_current_song is Some,
            old(self)@.can_refilter(),
        ensures
            ({
                let (w, f) = songs_ready(old(self)@, songs_view(songs@), false);
                &&& final(self)@ == w
                &&& match r {
                    Some((s, c)) => f == Some((s@, c)),
                    None => f is None,
                }
            }),
    {
        let n = songs.len();
        let ghost v1 = self@;
        self.append_songs(&songs);
        assert(self@.can_refilter() == v1.can_refilter());
        self.apply_filter();
        self.announce_added(n);
        None
    }

    fn begin_fetch(&mut self, pos: usize)
        ensures
            final(self)@ == (AppView { local_queue_pos: pos, local_fetching: true, ..old(self)@ }),
    {
        self.local_queue_pos = pos;
        self.local_fetching = true;
    }

    fn announce_added(&mut self, n: usize)
        ensures
            final(self)@ == (AppView { status_message: Some(added_text(n as nat)), ..old(self)@ }),
    {
        let mut msg = String::new();
        push_decimal(&mut msg, n as u64);
        proof {
            reveal_strlit(" songs added to queue");
        }
        push_str(&mut msg, " songs added to queue");
        assert(msg@ =~= added_text(n as nat));
        self.status_message = Some(msg);
    }

    fn audio_playing(&mut self, song: Song, kb: usize)
        ensures
            final(self)@ == audio_result(old(self)@, song@, true, kb as nat, None),
    {
        proof {
            reveal_strlit("Playing locally: ");
            reveal_strlit(" (");
            reveal_strlit(" KB)");
        }
        let mut msg = string_from("Playing locally: ");
        push_str(&mut msg, song.label.as_str());
        push_str(&mut msg, " (");
        push_decimal(&mut msg, kb as u64);
        push_str(&mut msg, " KB)");
        assert(msg@ =~= audio_text(true, song@.label, kb as nat));
        self.local_fetching = false;
        self.local_current_song = Some(song);
        self.local_paused = false;
        self.local_position = 0;
        self.status_message = Some(msg);
    }

    fn audio_queued(&mut self, song: Song, kb: usize)
        requires
            old(self).local_current_song is None,
        ensures
            final(self)@ == audio_result(old(self)@, song@, false, kb as nat, None),
    {
        proof {
            reveal_strlit("Queued: ");
            reveal_strlit(" (");
            reveal_strlit(" KB)");
        }
        let mut msg = string_from("Queued: ");
        push_str(&mut msg, song.label.as_str());
        push_str(&mut msg, " (");
        push_decimal(&mut msg, kb as u64);
        push_str(&mut msg, " KB)");
        assert(msg@ =~= audio_text(false, song@.label, kb as nat));
        let first = if self.local_queue.len() > 0 {
            Some(self.local_queue[0].clone())
        } else {
            None
        };
        self.local_fetching = false;
        self.local_current_song = first;
        self.local_queue_pos = 0;
        self.status_message = Some(msg);
    }

    fn audio_failed(&mut self, song: &Song, clear: bool, kb: usize, e: String)
        ensures
            final(self)@ == audio_result(old(self)@, song@, clear, kb as nat, Some(e@)),
    {
        proof {
            reveal_strlit("Playback error: ");
        }
        let mut msg = string_from("Playback error: ");
        push_str(&mut msg, e.as_str());
        assert(msg@ =~= playback_error_text(e@));
        self.local_fetching = false;
        self.status_message = Some(msg);
    }

    /// The local player took (`error` is `None`) or refused the audio of
    /// `song`, of `kb` kilobytes.
    pub fn local_audio_result(&mut self, song: Song, clear: bool, kb: usize, error: Option<String>)
        ensures
            final(self)@ == audio_result(old(self)@, song@, clear, kb as nat, opt_string(error)),
    {
        match error {
            None => {
                if clear {
                    self.audio_playing(song, kb);
                } else if self.local_current_song.is_none() {
                    self.audio_queued(song, kb);
                } else {
                    self.local_fetching = false;
                }
            },
            Some(e) => {
                self.audio_failed(&song, clear, kb, e);
            },
        }
    }

    /// Skips `n` songs through the local queue; returns the song to fetch.
    pub fn local_skip(&mut self, n: usize, forward: bool) -> (r: Option<Song>)
        requires
            skip_ok(old(self)@, n, forward),
        ensures
            (final(self)@, opt_view(r)) == local_skip_effect(old(self)@, n, forward),
    {
        let len = self.local_queue.len();
        if len == 0 {
            return None;
        }
        let new_pos = skip_position(self.local_queue_pos, len, n, forward);
        let r = self.move_to(new_pos);
        self.local_position = 0;
        r
    }

    /// The first library song with the given id.
    pub fn find_song(&self, id: u32) -> (r: Option<Song>)
        ensures
            match find_song(songs_view(self.all_songs@), id) {
                Some(i) => r matches Some(s) && s@ == self@.all_songs[i],
                None => r is None,
            },
    {
        let n = self.all_songs.len();
        let ghost sv = songs_view(self.all_songs@);
        for i in 0..n
            invariant
                n == self.all_songs@.len(),
                sv == songs_view(self.all_songs@),
                forall|j: int| 0 <= j < i ==> (#[trigger] sv[j]).songid != id,
        {
            if self.all_songs[i].songid == id {
                proof {
                    assert(sv[i as int].songid == id);
                    let k = choose|k: int| 0 <= k < sv.len() && sv[k].songid == id && forall|j: int| 0 <= j < k ==> (#[trigger] sv[j]).songid != id;
                    if k < i {
                    } else if k > i {
                        assert(sv[i as int].songid != id);
                    }
                }
                return Some(self.all_songs[i].clone());
            }
        }
        None
    }

    /// Plays a library song locally on its own: the queue becomes just that
    /// song and its audio is fetched. Nothing happens for an unknown id.
    pub fn start_local_song(&mut self, id: u32) -> (r: Option<Song>)
        requires
            old(self)@.can_refilter(),
            cleared_queue(old(self)@).can_refilter(),
        ensures
            match find_song(old(self)@.all_songs, id) {
                Some(i) => r matches Some(s) && s@ == old(self)@.all_songs[i] && final(self)@ == (AppView {
                    local_queue_pos: 0,
                    local_fetching: true,
                    ..(AppView { local_queue: seq![s@], ..cleared_queue(old(self)@) }).refiltered()
                }),
                None => r is None && final(self)@ == old(self)@,
            },
    {
        let song = self.find_song(id);
        match song {
            Some(song) => {
                self.clear_local_queue();
                proof {
                    crate::app::lemma_refiltered_frame(AppView {
                        local_queue: Seq::empty(),
                        local_queue_pos: 0,
                        local_current_song: None,
                        local_fetching: false,
                        local_position: 0,
                        ..old(self)@
                    });
                    assert(self@.local_queue.push(song@) =~= seq![song@]);
                }
                self.push_local_queue(song.clone());
                self.local_queue_pos = 0;
                self.local_fetching = true;
                Some(song)
            },
            None => None,
        }
    }

    /// Adds a library song to the local queue and fetches its audio.
    /// Nothing happens for an unknown id.
    pub fn enqueue_local_song(&mut self, id: u32) -> (r: Option<Song>)
        requires
            old(self)@.can_refilter(),
        ensures
            match find_song(old(self)@.all_songs, id) {
                Some(i) => r matches Some(s) && s@ == old(self)@.all_songs[i] && final(self)@ == (AppView {
                    local_fetching: true,
                    ..(AppView { local_queue: old(self)@.local_queue.push(s@), ..old(self)@ }).refiltered()
                }),
                None => r is None && final(self)@ == old(self)@,
            },
    {
        let song = self.find_song(id);
        match song {
            Some(song) => {
                self.push_local_queue(song.clone());
                self.local_fetching = true;
                Some(song)
            },
            None => None,
        }
    }
}

/// The state after the backend is switched: the other backend, the
/// selection at the top and the list recomputed.
pub open spec fn backend_toggled(v: AppView) -> AppView {
    (AppView { backend: other_backend(v.backend), ..v }).at_top().refiltered()
}

pub open spec fn remote_mode_text() -> Seq<char> {
    "Remote playback mode"@
}

pub open spec fn local_mode_text() -> Seq<char> {
    "Local playback mode (songs only)"@
}

pub open spec fn no_audio_text(e: Seq<char>) -> Seq<char> {
    "Local audio unavailable: "@ + e
}

impl App {
    /// Switches between Kodi and local playback. Returns whether the local
    /// player is to be opened now; a switch back to Kodi says so at once.
    pub fn switch_backend(&mut self) -> (open_local: bool)
        ensures
            open_local == (other_backend(old(self).backend) == PlaybackBackend::Local),
            final(self)@ == (if open_local {
                backend_toggled(old(self)@)
            } else {
                AppView { status_message: Some(remote_mode_text()), ..backend_toggled(old(self)@) }
            }),
    {
        self.toggle_backend();
        proof {
            crate::app::lemma_refiltered_frame(
                (AppView { backend: other_backend(old(self).backend), ..old(self)@ }).at_top(),
            );
        }
        match self.backend {
            PlaybackBackend::Local => true,
            PlaybackBackend::Remote => {
                proof {
                    reveal_strlit("Remote playback mode");
                }
                self.status_message = Some(string_from("Remote playback mode"));
                false
            },
        }
    }

    /// The local player opened (`error` is `None`) or failed to open, in
    /// which case playback goes back to Kodi.
    pub fn local_player_opened(&mut self, error: Option<String>)
        ensures
            final(self)@ == (match error {
                None => AppView { status_message: Some(local_mode_text()), ..old(self)@ },
                Some(e) => AppView { status_message: Some(no_audio_text(e@)), ..backend_toggled(old(self)@) },
            }),
    {
        match error {
            None => {
                proof {
                    reveal_strlit("Local playback mode (songs only)");
                }
                self.status_message = Some(string_from("Local playback mode (songs only)"));
            },
            Some(e) => {
                self.toggle_backend();
                let mut msg = string_from("Local audio unavailable: ");
                push_str(&mut msg, e.as_str());
                self.status_message = Some(msg);
            },
        }
    }
}

impl App {
    /// Whether a tick with the player `empty` or not can advance without
    /// indexing past the queue (`tick_ok`).
    pub fn tick_fits(&self, empty: bool) -> (r: bool)
        ensures
            r == tick_ok(self@, empty),
    {
        if self.backend == PlaybackBackend::Local && empty && !self.local_fetching && self.local_current_song.is_some() {
            match self.repeat_mode {
                RepeatMode::Track => self.local_queue_pos < self.local_queue.len(),
                _ => self.local_queue_pos < usize::MAX,
            }
        } else {
            true
        }
    }

    /// Whether a local skip by `n` stays within the integers and the queue
    /// (`skip_ok`).
    pub fn skip_fits(&self, n: usize, forward: bool) -> (r: bool)
        ensures
            r == skip_ok(self@, n, forward),
    {
        let len = self.local_queue.len();
        if len == 0 {
            true
        } else if forward {
            self.local_queue_pos <= usize::MAX - n
        } else {
            self.local_queue_pos < n || self.local_queue_pos - n < len
        }
    }
}

pub open spec fn opt_string(s: Option<String>) -> Option<Seq<char>> {
    match s {
        Some(t) => Some(t@),
        None => None,
    }
}

} // verus!
