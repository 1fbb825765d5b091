//! Properties that hold across the library's operations: cycles that come
//! back to where they started, edits that undo each other, and bounds that
//! every step keeps.
use vstd::prelude::*;
use crate::app::{
    next_repeat, next_scope_of, other_backend, other_mode, prev_scope_of, AppView, InputMode, PlaybackBackend,
    RepeatMode, SearchMode, SearchScope,
};
use crate::config::{resolved_theme, ThemeConfigView, ThemeView, color_of, hex_digit_value, hex_u8, hex_value, is_hex_digit, named_color, strip_hash, Color};
use crate::keys::{key_effect, search_key, volume_down, volume_up, Action, KeyCode, KeyEvent, KeyModifiers};
use crate::musicbrainz::{shown_relations, RelationView};
use crate::playback::{
    audio_result, backend_toggled, cleared_queue, local_skip_effect, no_audio_text, skip_target, songs_ready, tick,
};
use crate::rpc::{method_name, request_text, signed_decimal, run_steps, remote_calls_spec, reply_fits, status_step_spec, KodiCommand, StatusPoll, StatusReply};
use crate::search::{
    exact_match_spec, exact_positions, find_from, fuzzy_score_spec, fuzzy_scores, greedy_end, lemma_ranking_exists,
    selection,
};
use crate::layout::{item_info_rows_spec, song_info_rows_spec};
use crate::kodi::{duration_text, CurrentItemView, SongView};
use crate::text::{decimal, is_infix, join, all_ascii, byte_len, is_ascii_char, lemma_boundary_unique, lowercase};

verus! {

/// Pressing `r` cycles the local repeat mode through its three settings:
/// each press changes it, and the third press brings it back.
pub proof fn repeat_mode_cycles(m: RepeatMode)
    ensures
        next_repeat(m) != m,
        next_repeat(next_repeat(m)) != m,
        next_repeat(next_repeat(next_repeat(m))) == m,
{
}

/// Switching the backend twice comes back to the same backend.
pub proof fn backend_switch_twice(v: AppView)
    ensures
        backend_toggled(v).backend == other_backend(v.backend),
        backend_toggled(backend_toggled(v)).backend == v.backend,
{
    crate::app::lemma_refiltered_frame((AppView { backend: other_backend(v.backend), ..v }).at_top());
    let w = backend_toggled(v);
    crate::app::lemma_refiltered_frame((AppView { backend: other_backend(w.backend), ..w }).at_top());
}

/// Switching to local playback when the local player cannot be opened
/// leaves playback on Kodi.
pub proof fn failed_local_player_stays_remote(v: AppView, e: Seq<char>)
    requires
        v.backend == PlaybackBackend::Remote,
    ensures
        backend_toggled(v).backend == PlaybackBackend::Local,
        (AppView { status_message: Some(no_audio_text(e)), ..backend_toggled(backend_toggled(v)) }).backend
            == PlaybackBackend::Remote,
{
    backend_switch_twice(v);
}

/// Tab switches between exact and fuzzy matching and back.
pub proof fn search_mode_toggles(m: SearchMode)
    ensures
        other_mode(m) != m,
        other_mode(other_mode(m)) == m,
{
}

/// The next scope and the previous scope undo each other, and four steps
/// go round all scopes back to the start.
pub proof fn scopes_go_round(s: SearchScope)
    ensures
        prev_scope_of(next_scope_of(s)) == s,
        next_scope_of(prev_scope_of(s)) == s,
        next_scope_of(next_scope_of(next_scope_of(next_scope_of(s)))) == s,
{
}

proof fn lemma_find_from_reaches(h: Seq<char>, c: char, from: int, p: int)
    requires
        0 <= from <= p < h.len(),
        h[p] == c,
    ensures
        find_from(h, c, from) matches Some(i) && from <= i <= p,
    decreases p - from,
{
    if h[from] != c {
        lemma_find_from_reaches(h, c, from + 1, p);
    }
}

proof fn lemma_greedy_finds_infix(h: Seq<char>, n: Seq<char>, from: int, p: int)
    requires
        0 <= from <= p,
        p + n.len() <= h.len(),
        h.subrange(p, p + n.len()) == n,
    ensures
        greedy_end(h, n, from) is Some,
    decreases n.len(),
{
    if n.len() > 0 {
        assert(h[p] == h.subrange(p, p + n.len())[0]);
        lemma_find_from_reaches(h, n[0], from, p);
        let i = find_from(h, n[0], from)->0;
        assert(h.subrange(p + 1, p + 1 + n.drop_first().len()) =~= n.drop_first());
        lemma_greedy_finds_infix(h, n.drop_first(), i + 1, p + 1);
    }
}

/// What matches exactly also matches fuzzily: a substring of the haystack
/// is a subsequence of it.
pub proof fn exact_match_is_fuzzy_match(haystack: Seq<char>, needle: Seq<char>)
    requires
        exact_match_spec(haystack, needle),
    ensures
        fuzzy_score_spec(haystack, needle) is Some,
{
    if needle.len() > 0 {
        let h = lowercase(haystack);
        let n = lowercase(needle);
        let p = choose|i: int| 0 <= i && i + n.len() <= h.len() && #[trigger] h.subrange(i, i + n.len()) == n;
        lemma_greedy_finds_infix(h, n, 0, p);
    }
}

proof fn lemma_exact_positions(texts: Seq<Seq<char>>, q: Seq<char>, n: nat, p: usize)
    requires
        n <= texts.len() <= usize::MAX,
    ensures
        exact_positions(texts, q, n).contains(p) ==> p < n && exact_match_spec(texts[p as int], q),
    decreases n,
{
    if n > 0 {
        lemma_exact_positions(texts, q, (n - 1) as nat, p);
        let prev = exact_positions(texts, q, (n - 1) as nat);
        let cur = exact_positions(texts, q, n);
        if exact_match_spec(texts[n - 1], q) {
            assert(cur == prev.push((n - 1) as usize));
            if cur.contains(p) && !prev.contains(p) {
                let k = choose|k: int| 0 <= k < cur.len() && cur[k] == p;
                if k < prev.len() {
                    assert(prev[k] == p);
                }
                assert(p == n - 1);
            }
        } else {
            assert(cur == prev);
        }
    }
}

/// Whatever a search lists in exact mode, the same query lists in fuzzy
/// mode too.
pub proof fn exact_results_are_fuzzy_results(texts: Seq<Seq<char>>, q: Seq<char>, p: usize)
    requires
        texts.len() <= usize::MAX,
        selection(texts, q, SearchMode::Exact).contains(p),
    ensures
        selection(texts, q, SearchMode::Fuzzy).contains(p),
{
    if q.len() > 0 {
        lemma_exact_positions(texts, q, texts.len(), p);
        exact_match_is_fuzzy_match(texts[p as int], q);
        let scores = fuzzy_scores(texts, q);
        lemma_ranking_exists(scores);
        assert(scores[p as int] is Some);
    }
}

/// After the list is recomputed, the selection is an item of the list (0
/// when the list is empty) and lies in the window of visible rows.
pub proof fn refilter_keeps_selection_visible(v: AppView)
    requires
        v.can_refilter(),
    ensures
        v.refiltered().selected < v.refiltered().filtered_items.len() || (v.refiltered().selected == 0
            && v.refiltered().filtered_items.len() == 0),
        v.visible_rows > 0 ==> v.refiltered().list_offset <= v.refiltered().selected < v.refiltered().list_offset
            + v.visible_rows,
{
    reveal(AppView::refiltered);
}

/// Moving the selection down or up never leaves the list, and scrolls so
/// that the selection is in the window of `rows` rows.
pub proof fn moves_keep_selection_visible(v: AppView, n: usize, rows: usize)
    requires
        v.selected < v.filtered_items.len(),
        v.down_ok(n, rows),
        v.up_ok(n, rows),
    ensures
        v.moved_down(n, rows).selected < v.filtered_items.len(),
        v.moved_up(n, rows).selected < v.filtered_items.len(),
        rows > 0 ==> v.moved_down(n, rows).list_offset <= v.moved_down(n, rows).selected
            < v.moved_down(n, rows).list_offset + rows,
        rows > 0 ==> v.moved_up(n, rows).list_offset <= v.moved_up(n, rows).selected < v.moved_up(n, rows).list_offset
            + rows,
{
    reveal(AppView::moved_down);
    reveal(AppView::moved_up);
}

/// Jumping to the bottom selects the last item (0 for an empty list) and
/// scrolls so that it is on screen.
pub proof fn bottom_is_the_last_item(v: AppView)
    requires
        v.filtered_items.len() <= usize::MAX,
        v.bottom_ok(),
    ensures
        v.select_row(v.bottom(), v.visible_rows).selected == (if v.filtered_items.len() == 0 {
            0
        } else {
            v.filtered_items.len() - 1
        }),
        v.visible_rows > 0 ==> v.select_row(v.bottom(), v.visible_rows).list_offset <= v.select_row(
            v.bottom(),
            v.visible_rows,
        ).selected < v.select_row(v.bottom(), v.visible_rows).list_offset + v.visible_rows,
{
}

/// Typing a character into the search and deleting it again gives the
/// same query and the same list as before, with the selection at the top.
pub proof fn typed_then_deleted(v: AppView, c: char)
    ensures
        ({
            let typed = (AppView { search_query: v.search_query.push(c), ..v }).at_top().refiltered();
            let deleted = (AppView {
                search_query: if typed.search_query.len() > 0 {
                    typed.search_query.drop_last()
                } else {
                    typed.search_query
                },
                ..typed
            }).at_top().refiltered();
            deleted == v.at_top().refiltered()
        }),
{
    reveal(AppView::refiltered);
    assert(v.search_query.push(c).drop_last() =~= v.search_query);
}

/// With queue repeat on, running out of audio never stops local playback:
/// the next song (or the first again) is fetched.
pub proof fn queue_repeat_keeps_playing(v: AppView, paused: bool, position: u32)
    requires
        v.backend == PlaybackBackend::Local,
        v.repeat_mode == RepeatMode::Queue,
        v.local_queue.len() > 0,
        !v.local_fetching,
        v.local_current_song is Some,
    ensures
        tick(v, paused, position, true).1 is Some,
        tick(v, paused, position, true).0.local_current_song is Some,
        tick(v, paused, position, true).0.local_queue_pos < v.local_queue.len(),
{
}

/// With track repeat on, running out of audio fetches the same song again.
pub proof fn track_repeat_replays(v: AppView, paused: bool, position: u32)
    requires
        v.backend == PlaybackBackend::Local,
        v.repeat_mode == RepeatMode::Track,
        v.local_queue_pos < v.local_queue.len(),
        !v.local_fetching,
        v.local_current_song is Some,
    ensures
        tick(v, paused, position, true).1 == Some(v.local_queue[v.local_queue_pos as int]),
        tick(v, paused, position, true).0.local_queue_pos == v.local_queue_pos,
{
}

/// Without repeat, playback stops after the last song of the queue.
pub proof fn playback_ends_after_last_song(v: AppView, paused: bool, position: u32)
    requires
        v.backend == PlaybackBackend::Local,
        v.repeat_mode == RepeatMode::Off,
        v.local_queue_pos + 1 >= v.local_queue.len(),
        !v.local_fetching,
        v.local_current_song is Some,
    ensures
        tick(v, paused, position, true).1 is None,
        tick(v, paused, position, true).0.local_current_song is None,
{
}

/// A skip through a non-empty local queue lands on one of its songs.
pub proof fn skip_stays_in_queue(pos: usize, len: nat, n: usize, forward: bool)
    requires
        len > 0,
        len <= usize::MAX,
        pos < len,
    ensures
        skip_target(pos, len, n, forward) < len,
        forward ==> skip_target(pos, len, n, forward) >= pos,
        !forward ==> skip_target(pos, len, n, forward) <= pos,
{
}

/// The volume keys never raise the volume above 100 and never raise it
/// when turning it down.
pub proof fn volume_keys_bounded(volume: u32, step: u32)
    ensures
        volume_up(volume, step) <= 100,
        volume_down(volume, step) <= volume,
        volume + step <= 100 ==> volume_up(volume, step) == volume + step,
{
}

/// How far a status poll has got: players, volume, properties, item.
pub open spec fn poll_stage(s: StatusPoll) -> nat {
    match s {
        StatusPoll::AskPlayers => 0,
        StatusPoll::AskVolume { .. } => 1,
        StatusPoll::AskProperties { .. } => 2,
        StatusPoll::AskItem { .. } => 3,
    }
}

/// Each answered step of a status poll moves on to the next stage or
/// finishes, so a poll makes at most four calls; the answer about the item
/// always finishes it.
pub proof fn status_poll_advances(step: StatusPoll, reply: StatusReply)
    requires
        reply_fits(step, reply),
    ensures
        match status_step_spec(step, reply) {
            (Some((next, _)), None) => poll_stage(next) == poll_stage(step) + 1,
            (None, Some(_)) => true,
            _ => false,
        },
        step is AskItem ==> status_step_spec(step, reply).1 is Some,
{
}

/// A lowercase hexadecimal digit.
pub open spec fn hex_digit_char(d: nat) -> char {
    if d < 10 {
        (48 + d) as char
    } else {
        (87 + d) as char
    }
}

/// A byte as two lowercase hexadecimal digits.
pub open spec fn hex_byte(b: u8) -> Seq<char> {
    seq![hex_digit_char(b as nat / 16), hex_digit_char(b as nat % 16)]
}

/// The text `#rrggbb` of a colour.
pub open spec fn rgb_text(r: u8, g: u8, b: u8) -> Seq<char> {
    seq!['#'] + hex_byte(r) + hex_byte(g) + hex_byte(b)
}

proof fn lemma_hex_digit_char(d: nat)
    requires
        d < 16,
    ensures
        is_hex_digit(hex_digit_char(d)),
        hex_digit_value(hex_digit_char(d)) == d,
        is_ascii_char(hex_digit_char(d)),
{
}

proof fn lemma_hex_byte(b: u8)
    ensures
        hex_u8(hex_byte(b)) == Some(b),
        all_ascii(hex_byte(b)),
        hex_byte(b).len() == 2,
{
    let s = hex_byte(b);
    lemma_hex_digit_char(b as nat / 16);
    lemma_hex_digit_char(b as nat % 16);
    let first = seq![s[0]];
    assert(s.drop_last() =~= first);
    assert(first.drop_last() =~= Seq::<char>::empty());
    assert(hex_value(first.drop_last()) == 0);
    assert(first.last() == s[0]);
    assert(hex_value(first) == hex_digit_value(s[0]));
    assert(hex_value(s) == hex_value(first) * 16 + hex_digit_value(s[1]));
    assert(hex_value(s) == b);
}

proof fn lemma_six_ascii_bytes(x: Seq<char>)
    requires
        x.len() == 6,
        all_ascii(x),
    ensures
        byte_len(x) == 6,
        byte_len(x.take(2)) == 2,
        byte_len(x.take(4)) == 4,
{
    assert forall|k: int| 0 <= k <= 6 implies #[trigger] byte_len(x.take(k)) == k by {
        lemma_ascii_prefix_bytes(x, k);
    }
    assert(x.take(6) =~= x);
}

proof fn lemma_ascii_prefix_bytes(x: Seq<char>, k: int)
    requires
        0 <= k <= x.len(),
        all_ascii(x),
    ensures
        byte_len(x.take(k)) == k,
    decreases k,
{
    if k > 0 {
        lemma_ascii_prefix_bytes(x, k - 1);
        assert(x.take(k).drop_last() =~= x.take(k - 1));
        assert(is_ascii_char(x[k - 1]));
    }
}

proof fn lemma_hash_is_no_name(t: Seq<char>)
    requires
        t.len() > 0,
        t[0] == '#',
    ensures
        named_color(t) is None,
{
    reveal_strlit("black");
    reveal_strlit("red");
    reveal_strlit("green");
    reveal_strlit("yellow");
    reveal_strlit("blue");
    reveal_strlit("magenta");
    reveal_strlit("cyan");
    reveal_strlit("gray");
    reveal_strlit("grey");
    reveal_strlit("darkgray");
    reveal_strlit("darkgrey");
    reveal_strlit("dark_gray");
    reveal_strlit("dark_grey");
    reveal_strlit("white");
    reveal_strlit("lightred");
    reveal_strlit("light_red");
    reveal_strlit("lightgreen");
    reveal_strlit("light_green");
    reveal_strlit("lightyellow");
    reveal_strlit("light_yellow");
    reveal_strlit("lightblue");
    reveal_strlit("light_blue");
    reveal_strlit("lightmagenta");
    reveal_strlit("light_magenta");
    reveal_strlit("lightcyan");
    reveal_strlit("light_cyan");
}

/// A colour written as `#rrggbb` in lowercase hexadecimal is read back as
/// that colour.
pub proof fn rgb_text_names_its_colour(r: u8, g: u8, b: u8)
    ensures
        color_of(rgb_text(r, g, b)) == Color::Rgb(r, g, b),
{
    let t = rgb_text(r, g, b);
    lemma_hash_is_no_name(t);
    let x = hex_byte(r) + hex_byte(g) + hex_byte(b);
    assert(strip_hash(t) =~= x);
    lemma_hex_byte(r);
    lemma_hex_byte(g);
    lemma_hex_byte(b);
    assert(all_ascii(x)) by {
        assert forall|i: int| 0 <= i < x.len() implies is_ascii_char(#[trigger] x[i]) by {
            if i < 2 {
                assert(x[i] == hex_byte(r)[i]);
            } else if i < 4 {
                assert(x[i] == hex_byte(g)[i - 2]);
            } else {
                assert(x[i] == hex_byte(b)[i - 4]);
            }
        }
    }
    lemma_six_ascii_bytes(x);
    lemma_boundary_unique(x, 2, 2);
    lemma_boundary_unique(x, 4, 4);
    assert(x.subrange(0, 2) =~= hex_byte(r));
    assert(x.subrange(2, 4) =~= hex_byte(g));
    assert(x.subrange(4, 6) =~= hex_byte(b));
}

/// One of the four captions under which a related artist is shown.
pub open spec fn relation_caption(l: Seq<char>) -> bool {
    ||| l == "collaborated with"@
    ||| l == "member of band"@
    ||| l == "session musician for"@
    ||| l == "conducted by"@
}

/// Every related artist shown carries one of the four captions, and no
/// more are shown than MusicBrainz lists.
pub proof fn shown_relations_are_captioned(rs: Seq<RelationView>)
    ensures
        shown_relations(rs).len() <= rs.len(),
        forall|i: int|
            0 <= i < shown_relations(rs).len() ==> relation_caption(#[trigger] shown_relations(rs)[i].relation_label),
    decreases rs.len(),
{
    if rs.len() > 0 {
        shown_relations_are_captioned(rs.drop_last());
    }
}

/// Playing on Kodi clears its playlist first, adds the item, and opens the
/// playlist last.
pub proof fn playing_on_kodi_clears_the_playlist(action: Action, player_id: Option<i64>, pos: usize)
    requires
        action is PlaySong || action is PlayAlbum || action is PlayArtist,
    ensures
        remote_calls_spec(action, player_id, pos).len() == 3,
        remote_calls_spec(action, player_id, pos)[0] == KodiCommand::PlaylistClear,
        remote_calls_spec(action, player_id, pos)[2] == KodiCommand::OpenPlaylist,
{
}

/// Queueing on Kodi adds the item and nothing else.
pub proof fn queueing_on_kodi_only_adds(action: Action, player_id: Option<i64>, pos: usize)
    requires
        action is QueueSong || action is QueueAlbum || action is QueueArtist,
    ensures
        remote_calls_spec(action, player_id, pos).len() == 1,
        remote_calls_spec(action, player_id, pos)[0] is QueueSong || remote_calls_spec(action, player_id, pos)[0] is QueueAlbum
            || remote_calls_spec(action, player_id, pos)[0] is QueueArtist,
{
}

/// The local queue position names a song of the queue, or is 0 when the
/// queue is empty.
pub open spec fn queue_position_ok(v: AppView) -> bool {
    v.local_queue_pos < v.local_queue.len() || (v.local_queue.len() == 0 && v.local_queue_pos == 0)
}

proof fn lemma_tick_keeps_position(v: AppView, paused: bool, position: u32, empty: bool)
    requires
        queue_position_ok(v),
    ensures
        queue_position_ok(tick(v, paused, position, empty).0),
{
}

proof fn lemma_songs_ready_replacing(v: AppView, songs: Seq<SongView>)
    requires
        songs.len() > 0,
    ensures
        songs_ready(v, songs, true).0.local_queue == songs,
        songs_ready(v, songs, true).0.local_queue_pos == 0,
{
    let w = AppView {
        local_queue: Seq::empty(),
        local_queue_pos: 0,
        local_current_song: None,
        local_fetching: false,
        local_position: 0,
        ..v
    };
    let u = AppView { local_queue: w.local_queue + songs, ..w };
    crate::app::lemma_refiltered_frame(u);
    assert(w.local_queue + songs =~= songs);
}

proof fn lemma_songs_ready_appending(v: AppView, songs: Seq<SongView>)
    requires
        songs.len() > 0,
        queue_position_ok(v),
    ensures
        songs_ready(v, songs, false).0.local_queue == v.local_queue + songs,
        songs_ready(v, songs, false).0.local_queue_pos < v.local_queue.len() + songs.len(),
{
    let u = AppView { local_queue: v.local_queue + songs, ..v };
    crate::app::lemma_refiltered_frame(u);
}

proof fn lemma_songs_ready_keeps_position(v: AppView, songs: Seq<SongView>, clear: bool)
    requires
        queue_position_ok(v),
    ensures
        queue_position_ok(songs_ready(v, songs, clear).0),
{
    if songs.len() > 0 {
        if clear {
            lemma_songs_ready_replacing(v, songs);
        } else {
            lemma_songs_ready_appending(v, songs);
        }
    }
}

proof fn lemma_audio_keeps_position(v: AppView, song: SongView, clear: bool, kb: nat, error: Option<Seq<char>>)
    requires
        queue_position_ok(v),
    ensures
        queue_position_ok(audio_result(v, song, clear, kb, error)),
{
}

proof fn lemma_skip_keeps_position(v: AppView, n: usize, forward: bool)
    requires
        queue_position_ok(v),
    ensures
        queue_position_ok(local_skip_effect(v, n, forward).0),
{
}

proof fn lemma_enqueue_keeps_position(v: AppView, song: SongView)
    requires
        queue_position_ok(v),
    ensures
        queue_position_ok((AppView { local_queue: v.local_queue.push(song), ..v }).refiltered()),
{
    crate::app::lemma_refiltered_frame(AppView { local_queue: v.local_queue.push(song), ..v });
}

proof fn lemma_start_keeps_position(v: AppView, song: SongView)
    ensures
        queue_position_ok(
            AppView { local_queue_pos: 0, ..(AppView { local_queue: seq![song], ..cleared_queue(v) }).refiltered() },
        ),
{
    crate::app::lemma_refiltered_frame(AppView { local_queue: seq![song], ..cleared_queue(v) });
}

/// Every step of local playback keeps the queue position on a song of the
/// queue (or at 0 for an empty queue): ticks of the player, arriving song
/// lists, arriving audio, skips, and playing or queueing a library song.
pub proof fn local_steps_keep_queue_position(
    v: AppView,
    paused: bool,
    position: u32,
    empty: bool,
    songs: Seq<SongView>,
    clear: bool,
    song: SongView,
    kb: nat,
    error: Option<Seq<char>>,
    n: usize,
    forward: bool,
)
    requires
        queue_position_ok(v),
    ensures
        queue_position_ok(tick(v, paused, position, empty).0),
        queue_position_ok(songs_ready(v, songs, clear).0),
        queue_position_ok(audio_result(v, song, clear, kb, error)),
        queue_position_ok(local_skip_effect(v, n, forward).0),
        queue_position_ok((AppView { local_queue: v.local_queue.push(song), ..v }).refiltered()),
        queue_position_ok(
            AppView { local_queue_pos: 0, ..(AppView { local_queue: seq![song], ..cleared_queue(v) }).refiltered() },
        ),
{
    lemma_tick_keeps_position(v, paused, position, empty);
    lemma_songs_ready_keeps_position(v, songs, clear);
    lemma_audio_keeps_position(v, song, clear, kb, error);
    lemma_skip_keeps_position(v, n, forward);
    lemma_enqueue_keeps_position(v, song);
    lemma_start_keeps_position(v, song);
}

/// A theme configuration that sets nothing gives the documented defaults:
/// gray, cyan, yellow and white text, black on white for the selection,
/// magenta, blue and green badges labelled ART, ALB and SNG.
pub proof fn empty_theme_config_gives_documented_defaults(c: ThemeConfigView)
    requires
        c.dim is None && c.accent is None && c.highlight is None && c.text is None,
        c.selected_fg is None && c.selected_bg is None,
        c.tag_artist is None && c.tag_album is None && c.tag_song is None,
        c.tag_artist_label is None && c.tag_album_label is None && c.tag_song_label is None,
    ensures
        resolved_theme(c) == (ThemeView {
            dim: Color::Gray,
            accent: Color::Cyan,
            highlight: Color::Yellow,
            text: Color::White,
            selected_fg: Color::Black,
            selected_bg: Color::White,
            tag_artist: Some(Color::Magenta),
            tag_album: Some(Color::Blue),
            tag_song: Some(Color::Green),
            tag_artist_label: "ART"@,
            tag_album_label: "ALB"@,
            tag_song_label: "SNG"@,
        }),
{
}

/// Recomputing the list keeps the selection where it was when it is still
/// an item, else moves it to the last item (0 and the top of the window
/// for an empty list), and scrolls it into the window. The scrolling is
/// stated where it does not overflow (`can_refilter`), as in the code.
pub proof fn refilter_clamps_selection(v: AppView)
    requires
        v.can_refilter(),
        v.visible_rows > 0,
    ensures
        v.refiltered().filtered_items.len() == 0 ==> v.refiltered().selected == 0 && v.refiltered().list_offset == 0,
        v.refiltered().filtered_items.len() > 0 ==> v.refiltered().selected == (if v.selected
            < v.refiltered().filtered_items.len() {
            v.selected as int
        } else {
            v.refiltered().filtered_items.len() - 1
        }),
        v.refiltered().list_offset <= v.refiltered().selected < v.refiltered().list_offset + v.visible_rows,
{
    reveal(AppView::refiltered);
}

proof fn lemma_run_to_failure(calls: Seq<KodiCommand>, outcomes: Seq<Option<Seq<char>>>, m: nat, k: nat)
    requires
        m <= k < calls.len(),
        k < outcomes.len(),
        outcomes[k as int] is Some,
        forall|j: int| m <= j < k ==> (#[trigger] outcomes[j]) is None,
    ensures
        run_steps(calls, outcomes, m, None) == (k + 1, Err::<(), Seq<char>>(outcomes[k as int]->0)),
    decreases k - m,
{
    if m < k {
        assert(outcomes[m as int] is None);
        lemma_run_to_failure(calls, outcomes, m + 1, k);
    } else {
        let e = outcomes[k as int]->0;
        assert(run_steps(calls, outcomes, k, Some(e)) == (k + 1, Err::<(), Seq<char>>(e)));
    }
}

proof fn lemma_run_to_end(calls: Seq<KodiCommand>, outcomes: Seq<Option<Seq<char>>>, m: nat)
    requires
        m <= calls.len() <= outcomes.len(),
        forall|j: int| m <= j < calls.len() ==> (#[trigger] outcomes[j]) is None,
    ensures
        run_steps(calls, outcomes, m, None) == (calls.len(), Ok::<(), Seq<char>>(())),
    decreases calls.len() - m,
{
    if m < calls.len() {
        assert(outcomes[m as int] is None);
        lemma_run_to_end(calls, outcomes, m + 1);
    }
}

/// Running a list of calls (the three of playing on Kodi among them) stops
/// at the first call that fails: exactly the calls up to it are made, and
/// its error is the result of the run.
pub proof fn run_stops_at_first_failure(calls: Seq<KodiCommand>, outcomes: Seq<Option<Seq<char>>>, k: nat)
    requires
        k < calls.len() <= outcomes.len(),
        outcomes[k as int] is Some,
        forall|j: int| 0 <= j < k ==> (#[trigger] outcomes[j]) is None,
    ensures
        run_steps(calls, outcomes, 0, None) == (k + 1, Err::<(), Seq<char>>(outcomes[k as int]->0)),
{
    lemma_run_to_failure(calls, outcomes, 0, k);
}

/// A run in which no call fails makes every call and succeeds.
pub proof fn run_without_failure_succeeds(calls: Seq<KodiCommand>, outcomes: Seq<Option<Seq<char>>>)
    requires
        calls.len() <= outcomes.len(),
        forall|j: int| 0 <= j < calls.len() ==> (#[trigger] outcomes[j]) is None,
    ensures
        run_steps(calls, outcomes, 0, None) == (calls.len(), Ok::<(), Seq<char>>(())),
{
    lemma_run_to_end(calls, outcomes, 0);
}

// ------------------------------------------------------------------
// Auto-advance, scopes, colour names, requests and the track popup
// ------------------------------------------------------------------

/// Outside track repeat (repeat off or queue repeat), running out of audio
/// before the last song moves on to the very next song of the queue and
/// fetches it; the queue itself is left as it is.
pub proof fn auto_advance_goes_to_the_next_song(v: AppView, paused: bool, position: u32)
    requires
        v.backend == PlaybackBackend::Local,
        v.repeat_mode != RepeatMode::Track,
        v.local_queue.len() <= usize::MAX,
        v.local_queue_pos + 1 < v.local_queue.len(),
        !v.local_fetching,
        v.local_current_song is Some,
    ensures
        tick(v, paused, position, true).0.local_queue_pos == v.local_queue_pos + 1,
        tick(v, paused, position, true).1 == Some(v.local_queue[v.local_queue_pos + 1]),
        tick(v, paused, position, true).0.local_current_song == Some(v.local_queue[v.local_queue_pos + 1]),
        tick(v, paused, position, true).0.local_queue == v.local_queue,
        tick(v, paused, position, true).0.local_fetching,
{
}

/// The place of a scope in the order All, Artists, Albums, Songs.
pub open spec fn scope_rank(s: SearchScope) -> int {
    match s {
        SearchScope::All => 0,
        SearchScope::Artists => 1,
        SearchScope::Albums => 2,
        SearchScope::Songs => 3,
    }
}

/// In search mode, Ctrl+n moves to the scope after the current one in the
/// order All, Artists, Albums, Songs (and round), Ctrl+p to the one before;
/// Ctrl+n then Ctrl+p gives back the scope, and search mode stays on.
pub proof fn search_scope_keys(v: AppView, m: KeyModifiers)
    requires
        !v.show_help,
        !v.show_track_info,
        v.input_mode == InputMode::Search,
        m.control,
    ensures
        ({
            let n = key_effect(v, KeyEvent { code: KeyCode::Char('n'), modifiers: m }).0;
            let p = key_effect(v, KeyEvent { code: KeyCode::Char('p'), modifiers: m }).0;
            let back = key_effect(n, KeyEvent { code: KeyCode::Char('p'), modifiers: m }).0;
            &&& scope_rank(n.search_scope) == (scope_rank(v.search_scope) + 1) % 4
            &&& scope_rank(p.search_scope) == (scope_rank(v.search_scope) + 3) % 4
            &&& n.input_mode == InputMode::Search
            &&& back.search_scope == v.search_scope
        }),
{
    reveal(search_key);
    let kn = KeyEvent { code: KeyCode::Char('n'), modifiers: m };
    let kp = KeyEvent { code: KeyCode::Char('p'), modifiers: m };
    crate::app::lemma_refiltered_frame(
        (AppView { search_scope: next_scope_of(v.search_scope), ..v }).at_top(),
    );
    crate::app::lemma_refiltered_frame(
        (AppView { search_scope: prev_scope_of(v.search_scope), ..v }).at_top(),
    );
    let n = key_effect(v, kn).0;
    assert(n.search_scope == next_scope_of(v.search_scope));
    assert(!n.show_help && !n.show_track_info && n.input_mode == InputMode::Search);
    crate::app::lemma_refiltered_frame(
        (AppView { search_scope: prev_scope_of(n.search_scope), ..n }).at_top(),
    );
}

/// A text starts with `p`.
pub open spec fn starts_with(t: Seq<char>, p: Seq<char>) -> bool {
    p.len() <= t.len() && t.take(p.len() as int) == p
}

/// A text ends with `p`.
pub open spec fn ends_with(t: Seq<char>, p: Seq<char>) -> bool {
    p.len() <= t.len() && t.skip(t.len() - p.len()) == p
}

/// The colour word of a named colour.
pub open spec fn names_hue(t: Seq<char>, c: Color) -> bool {
    match c {
        Color::Black => ends_with(t, "black"@),
        Color::Red | Color::LightRed => ends_with(t, "red"@),
        Color::Green | Color::LightGreen => ends_with(t, "green"@),
        Color::Yellow | Color::LightYellow => ends_with(t, "yellow"@),
        Color::Blue | Color::LightBlue => ends_with(t, "blue"@),
        Color::Magenta | Color::LightMagenta => ends_with(t, "magenta"@),
        Color::Cyan | Color::LightCyan => ends_with(t, "cyan"@),
        Color::Gray | Color::DarkGray => ends_with(t, "gray"@) || ends_with(t, "grey"@),
        Color::White => ends_with(t, "white"@),
        _ => false,
    }
}

pub open spec fn is_light(c: Color) -> bool {
    c is LightRed || c is LightGreen || c is LightYellow || c is LightBlue || c is LightMagenta || c is LightCyan
}

/// A colour name says its colour: it ends with the colour's word, it
/// starts with "light" exactly for the light colours and with "dark"
/// exactly for dark gray. So "lightblue" cannot name blue, nor "blue"
/// light blue.
pub proof fn colour_names_say_their_colour(t: Seq<char>)
    requires
        named_color(t) is Some,
    ensures
        names_hue(t, named_color(t)->0),
        starts_with(t, "light"@) <==> is_light(named_color(t)->0),
        starts_with(t, "dark"@) <==> named_color(t)->0 == Color::DarkGray,
{
    reveal_strlit("black");
    reveal_strlit("red");
    reveal_strlit("green");
    reveal_strlit("yellow");
    reveal_strlit("blue");
    reveal_strlit("magenta");
    reveal_strlit("cyan");
    reveal_strlit("gray");
    reveal_strlit("grey");
    reveal_strlit("white");
    reveal_strlit("light");
    reveal_strlit("dark");
    reveal_strlit("darkgray");
    reveal_strlit("darkgrey");
    reveal_strlit("dark_gray");
    reveal_strlit("dark_grey");
    reveal_strlit("lightred");
    reveal_strlit("light_red");
    reveal_strlit("lightgreen");
    reveal_strlit("light_green");
    reveal_strlit("lightyellow");
    reveal_strlit("light_yellow");
    reveal_strlit("lightblue");
    reveal_strlit("light_blue");
    reveal_strlit("lightmagenta");
    reveal_strlit("light_magenta");
    reveal_strlit("lightcyan");
    reveal_strlit("light_cyan");
    if t == "black"@ {
        assert(t.skip(t.len() - 5) =~= "black"@);
        assert(t.take(5)[0] == t[0]);
        assert(t.take(4)[0] == t[0]);
    }
    if t == "red"@ {
        assert(t.skip(t.len() - 3) =~= "red"@);
    }
    if t == "green"@ {
        assert(t.skip(t.len() - 5) =~= "green"@);
        assert(t.take(5)[0] == t[0]);
        assert(t.take(4)[0] == t[0]);
    }
    if t == "yellow"@ {
        assert(t.skip(t.len() - 6) =~= "yellow"@);
        assert(t.take(5)[0] == t[0]);
        assert(t.take(4)[0] == t[0]);
    }
    if t == "blue"@ {
        assert(t.skip(t.len() - 4) =~= "blue"@);
        assert(t.take(4)[0] == t[0]);
    }
    if t == "magenta"@ {
        assert(t.skip(t.len() - 7) =~= "magenta"@);
        assert(t.take(5)[0] == t[0]);
        assert(t.take(4)[0] == t[0]);
    }
    if t == "cyan"@ {
        assert(t.skip(t.len() - 4) =~= "cyan"@);
        assert(t.take(4)[0] == t[0]);
    }
    if t == "gray"@ {
        assert(t.skip(t.len() - 4) =~= "gray"@);
        assert(t.take(4)[0] == t[0]);
    }
    if t == "grey"@ {
        assert(t.skip(t.len() - 4) =~= "grey"@);
        assert(t.take(4)[0] == t[0]);
    }
    if t == "darkgray"@ {
        assert(t.skip(t.len() - 4) =~= "gray"@);
        assert(t.take(5)[0] == t[0]);
        assert(t.take(4) =~= "dark"@);
    }
    if t == "darkgrey"@ {
        assert(t.skip(t.len() - 4) =~= "grey"@);
        assert(t.take(5)[0] == t[0]);
        assert(t.take(4) =~= "dark"@);
    }
    if t == "dark_gray"@ {
        assert(t.skip(t.len() - 4) =~= "gray"@);
        assert(t.take(5)[0] == t[0]);
        assert(t.take(4) =~= "dark"@);
    }
    if t == "dark_grey"@ {
        assert(t.skip(t.len() - 4) =~= "grey"@);
        assert(t.take(5)[0] == t[0]);
        assert(t.take(4) =~= "dark"@);
    }
    if t == "white"@ {
        assert(t.skip(t.len() - 5) =~= "white"@);
        assert(t.take(5)[0] == t[0]);
        assert(t.take(4)[0] == t[0]);
    }
    if t == "lightred"@ {
        assert(t.skip(t.len() - 3) =~= "red"@);
        assert(t.take(5) =~= "light"@);
        assert(t.take(4)[0] == t[0]);
    }
    if t == "light_red"@ {
        assert(t.skip(t.len() - 3) =~= "red"@);
        assert(t.take(5) =~= "light"@);
        assert(t.take(4)[0] == t[0]);
    }
    if t == "lightgreen"@ {
        assert(t.skip(t.len() - 5) =~= "green"@);
        assert(t.take(5) =~= "light"@);
        assert(t.take(4)[0] == t[0]);
    }
    if t == "light_green"@ {
        assert(t.skip(t.len() - 5) =~= "green"@);
        assert(t.take(5) =~= "light"@);
        assert(t.take(4)[0] == t[0]);
    }
    if t == "lightyellow"@ {
        assert(t.skip(t.len() - 6) =~= "yellow"@);
        assert(t.take(5) =~= "light"@);
        assert(t.take(4)[0] == t[0]);
    }
    if t == "light_yellow"@ {
        assert(t.skip(t.len() - 6) =~= "yellow"@);
        assert(t.take(5) =~= "light"@);
        assert(t.take(4)[0] == t[0]);
    }
    if t == "lightblue"@ {
        assert(t.skip(t.len() - 4) =~= "blue"@);
        assert(t.take(5) =~= "light"@);
        assert(t.take(4)[0] == t[0]);
    }
    if t == "light_blue"@ {
        assert(t.skip(t.len() - 4) =~= "blue"@);
        assert(t.take(5) =~= "light"@);
        assert(t.take(4)[0] == t[0]);
    }
    if t == "lightmagenta"@ {
        assert(t.skip(t.len() - 7) =~= "magenta"@);
        assert(t.take(5) =~= "light"@);
        assert(t.take(4)[0] == t[0]);
    }
    if t == "light_magenta"@ {
        assert(t.skip(t.len() - 7) =~= "magenta"@);
        assert(t.take(5) =~= "light"@);
        assert(t.take(4)[0] == t[0]);
    }
    if t == "lightcyan"@ {
        assert(t.skip(t.len() - 4) =~= "cyan"@);
        assert(t.take(5) =~= "light"@);
        assert(t.take(4)[0] == t[0]);
    }
    if t == "light_cyan"@ {
        assert(t.skip(t.len() - 4) =~= "cyan"@);
        assert(t.take(5) =~= "light"@);
        assert(t.take(4)[0] == t[0]);
    }
}

proof fn lemma_infix_in_middle(x: Seq<char>, a: Seq<char>, b: Seq<char>)
    ensures
        is_infix(x, a + x + b),
{
    assert((a + x + b).subrange(a.len() as int, (a.len() + x.len()) as int) =~= x);
}

/// The request for going to the previous song asks `Player.GoTo` with
/// `"to":"previous"`, the one for the next song with `"to":"next"`, for
/// every player, and the two requests differ.
pub proof fn previous_and_next_requests(p: i64)
    ensures
        method_name(KodiCommand::GoPrevious(p)) == "Player.GoTo"@,
        method_name(KodiCommand::GoNext(p)) == "Player.GoTo"@,
        is_infix("\"to\":\"previous\""@, request_text(KodiCommand::GoPrevious(p))),
        is_infix("\"to\":\"next\""@, request_text(KodiCommand::GoNext(p))),
        request_text(KodiCommand::GoPrevious(p)) != request_text(KodiCommand::GoNext(p)),
{
    reveal_strlit("\"to\":\"previous\"");
    reveal_strlit("\"to\":\"next\"");
    reveal_strlit(",\"to\":\"previous\"}");
    reveal_strlit(",\"to\":\"next\"}");
    reveal_strlit(",");
    reveal_strlit("}");
    let head = "{\"id\":1,\"jsonrpc\":\"2.0\",\"method\":\""@ + "Player.GoTo"@ + "\",\"params\":"@ + "{\"playerid\":"@
        + signed_decimal(p as int) + ","@;
    let prev = "\"to\":\"previous\""@;
    let next = "\"to\":\"next\""@;
    assert(",\"to\":\"previous\"}"@ =~= ","@ + prev + "}"@);
    assert(",\"to\":\"next\"}"@ =~= ","@ + next + "}"@);
    assert(request_text(KodiCommand::GoPrevious(p)) =~= head + prev + ("}"@ + "}"@));
    assert(request_text(KodiCommand::GoNext(p)) =~= head + next + ("}"@ + "}"@));
    lemma_infix_in_middle(prev, head, "}"@ + "}"@);
    lemma_infix_in_middle(next, head, "}"@ + "}"@);
    assert(request_text(KodiCommand::GoPrevious(p)).len() == request_text(KodiCommand::GoNext(p)).len() + 4);
}

/// In the track information popup for what Kodi plays, each row carries
/// the field its caption names: the artist row the item's artist, the
/// album row its album, the duration row its duration. The artist row is
/// first whenever there is an artist, an album row is there whenever there
/// is an album, and the duration row is always last.
pub proof fn track_popup_rows_carry_their_fields(item: CurrentItemView)
    ensures
        forall|i: int|
            0 <= i < item_info_rows_spec(item).len() && (#[trigger] item_info_rows_spec(item)[i]).0 == "Artist       "@
                ==> item_info_rows_spec(item)[i].1 == item.artist,
        forall|i: int|
            0 <= i < item_info_rows_spec(item).len() && (#[trigger] item_info_rows_spec(item)[i]).0 == "Album        "@
                ==> item_info_rows_spec(item)[i].1 == item.album,
        forall|i: int|
            0 <= i < item_info_rows_spec(item).len() && (#[trigger] item_info_rows_spec(item)[i]).0 == "Duration     "@
                ==> item_info_rows_spec(item)[i].1 == duration_text(item.duration as nat),
        item.artist.len() > 0 ==> item_info_rows_spec(item)[0] == ("Artist       "@, item.artist),
        item.album.len() > 0 ==> item_info_rows_spec(item).contains(("Album        "@, item.album)),
        item_info_rows_spec(item).len() > 0,
        item_info_rows_spec(item).last() == ("Duration     "@, duration_text(item.duration as nat)),
{
    reveal_strlit("Artist       ");
    reveal_strlit("Album        ");
    reveal_strlit("Duration     ");
    let rows = item_info_rows_spec(item);
    assert("Artist       "@ != "Album        "@) by {
        assert("Artist       "@[1] != "Album        "@[1]);
    }
    assert("Artist       "@[0] != "Duration     "@[0]);
    assert("Album        "@[0] != "Duration     "@[0]);
    if item.album.len() > 0 {
        let k = rows.len() - 2;
        assert(rows[k] == ("Album        "@, item.album));
    }
}

/// In the track information popup for a local song, each row carries the
/// field its caption names: the artists joined by commas, the album, the
/// track number and the duration; the artist row comes first and the album
/// row second.
pub proof fn song_popup_rows_carry_their_fields(song: SongView)
    ensures
        song_info_rows_spec(song)[0] == ("Artist       "@, join(song.artist, ", "@)),
        song_info_rows_spec(song)[1] == ("Album        "@, song.album),
        forall|i: int|
            0 <= i < song_info_rows_spec(song).len() && (#[trigger] song_info_rows_spec(song)[i]).0 == "Track        "@
                ==> song.track is Some && song_info_rows_spec(song)[i].1 == decimal(song.track->0 as nat),
        forall|i: int|
            0 <= i < song_info_rows_spec(song).len() && (#[trigger] song_info_rows_spec(song)[i]).0
                == "Duration     "@ ==> song.duration is Some && song_info_rows_spec(song)[i].1 == duration_text(
                song.duration->0 as nat,
            ),
        song_info_rows_spec(song).len() == 2 + (if song.track is Some { 1int } else { 0 }) + (if song.duration is Some {
            1int
        } else {
            0
        }),
{
    reveal_strlit("Artist       ");
    reveal_strlit("Album        ");
    reveal_strlit("Track        ");
    reveal_strlit("Duration     ");
    assert("Artist       "@[0] != "Track        "@[0]);
    assert("Album        "@[0] != "Track        "@[0]);
    assert("Track        "@[0] != "Duration     "@[0]);
    assert("Artist       "@[0] != "Duration     "@[0]);
    assert("Album        "@[0] != "Duration     "@[0]);
}

} // verus!
