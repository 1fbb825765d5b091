//! Keyboard handling: what each key does to the browser state, and which
//! playback command it asks for.
use vstd::prelude::*;
use crate::app::{clamp_ok, App, AppView, InputMode, ItemView, LibraryItem, Nav, PlaybackBackend, SearchScope};
use crate::text::{clear_string, is_digit, parse_usize, parse_usize_spec, push_char};

verus! {

/// The key that was pressed (the keys the browser tells apart; every other
/// key is `Other`).
#[derive(Debug, Clone, Copy, PartialEq, Eq, Structural)]
pub enum KeyCode {
    Char(char),
    Enter,
    Esc,
    Tab,
    Backspace,
    Up,
    Down,
    PageUp,
    PageDown,
    F(u8),
    Other,
}

/// The modifier keys held with a key; `other` stands for any modifier
/// besides shift, control and alt.
#[derive(Debug, Clone, Copy, PartialEq, Eq, Structural)]
pub struct KeyModifiers {
    pub shift: bool,
    pub control: bool,
    pub alt: bool,
    pub other: bool,
}

#[derive(Debug, Clone, Copy, PartialEq, Eq, Structural)]
pub struct KeyEvent {
    pub code: KeyCode,
    pub modifiers: KeyModifiers,
}

pub open spec fn no_modifiers(m: KeyModifiers) -> bool {
    !m.shift && !m.control && !m.alt && !m.other
}

/// What a key asks the player to do, with its argument: ids of songs,
/// albums and artists, Kodi player ids, step counts and volumes.
#[derive(Debug, Clone, Copy, PartialEq, Eq, Structural)]
pub enum Action {
    Quit,
    ToggleBackend,
    ToggleRepeat,
    PlaySong(u32),
    PlayAlbum(u32),
    PlayArtist(u32),
    QueueSong(u32),
    QueueAlbum(u32),
    QueueArtist(u32),
    LocalPlaySong(u32),
    LocalPlayAlbum(u32),
    LocalPlayArtist(u32),
    LocalQueueSong(u32),
    LocalQueueAlbum(u32),
    LocalQueueArtist(u32),
    TogglePause(i64),
    LocalTogglePause,
    Next(i64),
    Prev(i64),
    SkipForward(usize),
    SkipBack(usize),
    LocalSkipForward(usize),
    LocalSkipBack(usize),
    Stop(i64),
    LocalStop,
    Volume(u32),
    LocalVolume(u32),
}

/// Playing the selected item: locally or on Kodi, by its kind and id.
pub open spec fn play_action(v: AppView) -> Option<Action> {
    if v.selected < v.filtered_items.len() {
        let item = v.filtered_items[v.selected as int];
        Some(
            if v.backend == PlaybackBackend::Local {
                match item {
                    ItemView::Song(s) => Action::LocalPlaySong(s.songid),
                    ItemView::Album(a) => Action::LocalPlayAlbum(a.albumid),
                    ItemView::Artist(a) => Action::LocalPlayArtist(a.artistid),
                }
            } else {
                match item {
                    ItemView::Artist(a) => Action::PlayArtist(a.artistid),
                    ItemView::Album(a) => Action::PlayAlbum(a.albumid),
                    ItemView::Song(s) => Action::PlaySong(s.songid),
                }
            },
        )
    } else {
        None
    }
}

/// Queueing the selected item: locally or on Kodi, by its kind and id.
pub open spec fn queue_action(v: AppView) -> Option<Action> {
    if v.selected < v.filtered_items.len() {
        let item = v.filtered_items[v.selected as int];
        Some(
            if v.backend == PlaybackBackend::Local {
                match item {
                    ItemView::Song(s) => Action::LocalQueueSong(s.songid),
                    ItemView::Album(a) => Action::LocalQueueAlbum(a.albumid),
                    ItemView::Artist(a) => Action::LocalQueueArtist(a.artistid),
                }
            } else {
                match item {
                    ItemView::Artist(a) => Action::QueueArtist(a.artistid),
                    ItemView::Album(a) => Action::QueueAlbum(a.albumid),
                    ItemView::Song(s) => Action::QueueSong(s.songid),
                }
            },
        )
    } else {
        None
    }
}

pub fn play_selected(app: &App) -> (r: Option<Action>)
    ensures
        r == play_action(app@),
{
    match app.selected_item() {
        None => None,
        Some(item) => {
            if app.backend == PlaybackBackend::Local {
                match item {
                    LibraryItem::Song(s) => Some(Action::LocalPlaySong(s.songid)),
                    LibraryItem::Album(a) => Some(Action::LocalPlayAlbum(a.albumid)),
                    LibraryItem::Artist(a) => Some(Action::LocalPlayArtist(a.artistid)),
                }
            } else {
                match item {
                    LibraryItem::Artist(a) => Some(Action::PlayArtist(a.artistid)),
                    LibraryItem::Album(a) => Some(Action::PlayAlbum(a.albumid)),
                    LibraryItem::Song(s) => Some(Action::PlaySong(s.songid)),
                }
            }
        },
    }
}

pub fn queue_selected(app: &App) -> (r: Option<Action>)
    ensures
        r == queue_action(app@),
{
    match app.selected_item() {
        None => None,
        Some(item) => {
            if app.backend == PlaybackBackend::Local {
                match item {
                    LibraryItem::Song(s) => Some(Action::LocalQueueSong(s.songid)),
                    LibraryItem::Album(a) => Some(Action::LocalQueueAlbum(a.albumid)),
                    LibraryItem::Artist(a) => Some(Action::LocalQueueArtist(a.artistid)),
                }
            } else {
                match item {
                    LibraryItem::Artist(a) => Some(Action::QueueArtist(a.artistid)),
                    LibraryItem::Album(a) => Some(Action::QueueAlbum(a.albumid)),
                    LibraryItem::Song(s) => Some(Action::QueueSong(s.songid)),
                }
            }
        },
    }
}

// ------------------------------------------------------------------
// Search mode
// ------------------------------------------------------------------

pub open spec fn is_ctrl_char(key: KeyEvent, c: char) -> bool {
    key.code == KeyCode::Char(c) && key.modifiers.control
}

/// The keys of search mode that move the selection do not overflow.
pub open spec fn search_key_ok(v: AppView, key: KeyEvent) -> bool {
    nav_search_ok(v.nav(), key)
}

#[verifier::opaque]
pub open spec fn nav_search_ok(n: Nav, key: KeyEvent) -> bool {
    if is_ctrl_char(key, 'd') {
        n.down_ok(n.half_page(), n.rows)
    } else if is_ctrl_char(key, 'u') {
        n.up_ok(n.half_page(), n.rows)
    } else if key.code == KeyCode::Down {
        n.down_ok(1, n.rows)
    } else if key.code == KeyCode::Up {
        n.up_ok(1, n.rows)
    } else if key.code == KeyCode::PageDown {
        n.down_ok(n.rows, n.rows)
    } else if key.code == KeyCode::PageUp {
        n.up_ok(n.rows, n.rows)
    } else {
        true
    }
}

pub open spec fn scope_key(n: u8) -> Option<SearchScope> {
    if n == 1 {
        Some(SearchScope::All)
    } else if n == 2 {
        Some(SearchScope::Artists)
    } else if n == 3 {
        Some(SearchScope::Albums)
    } else if n == 4 {
        Some(SearchScope::Songs)
    } else {
        None
    }
}

/// Search mode: Esc leaves and clears the query; Alt+Enter queues the
/// selection; Enter leaves and plays it; Tab switches exact/fuzzy;
/// Backspace deletes a character; Ctrl+d/u move half a page; Ctrl+n/p
/// change the scope; other characters extend the query; arrows and page
/// keys move; F1..F4 pick the scope.
#[verifier::opaque]
pub open spec fn search_key(v: AppView, key: KeyEvent) -> (AppView, Option<Action>) {
    match key.code {
        KeyCode::Esc => (AppView { input_mode: InputMode::Normal, search_query: Seq::empty(), ..v }.at_top().refiltered(), None),
        KeyCode::Enter => if key.modifiers.alt {
            (v, queue_action(v))
        } else {
            let w = AppView { input_mode: InputMode::Normal, ..v };
            (w, play_action(w))
        },
        KeyCode::Tab => (AppView { search_mode: crate::app::other_mode(v.search_mode), ..v }.at_top().refiltered(), None),
        KeyCode::Backspace => (AppView {
            search_query: if v.search_query.len() > 0 {
                v.search_query.drop_last()
            } else {
                v.search_query
            },
            ..v
        }.at_top().refiltered(), None),
        KeyCode::Char(c) => if c == 'd' && key.modifiers.control {
            (v.moved_down(v.half_page(), v.visible_rows), None)
        } else if c == 'u' && key.modifiers.control {
            (v.moved_up(v.half_page(), v.visible_rows), None)
        } else if c == 'n' && key.modifiers.control {
            (AppView { search_scope: crate::app::next_scope_of(v.search_scope), ..v }.at_top().refiltered(), None)
        } else if c == 'p' && key.modifiers.control {
            (AppView { search_scope: crate::app::prev_scope_of(v.search_scope), ..v }.at_top().refiltered(), None)
        } else {
            (AppView { search_query: v.search_query.push(c), ..v }.at_top().refiltered(), None)
        },
        KeyCode::Down => (v.moved_down(1, v.visible_rows), None),
        KeyCode::Up => (v.moved_up(1, v.visible_rows), None),
        KeyCode::PageDown => (v.moved_down(v.visible_rows, v.visible_rows), None),
        KeyCode::PageUp => (v.moved_up(v.visible_rows, v.visible_rows), None),
        KeyCode::F(n) => match scope_key(n) {
            Some(s) => (AppView { search_scope: s, ..v }.at_top().refiltered(), None),
            None => (v, None),
        },
        _ => (v, None),
    }
}

fn set_scope_key(app: &mut App, n: u8)
    ensures
        match scope_key(n) {
            Some(s) => final(app)@ == (AppView { search_scope: s, ..old(app)@ }).at_top().refiltered(),
            None => final(app)@ == old(app)@,
        },
{
    if n == 1 {
        app.set_scope(SearchScope::All);
    } else if n == 2 {
        app.set_scope(SearchScope::Artists);
    } else if n == 3 {
        app.set_scope(SearchScope::Albums);
    } else if n == 4 {
        app.set_scope(SearchScope::Songs);
    }
}

fn search_esc(app: &mut App, key: KeyEvent) -> (r: Option<Action>)
    requires
        key.code == KeyCode::Esc,
    ensures
        (final(app)@, r) == search_key(old(app)@, key),
{
    reveal(search_key);
    app.input_mode = InputMode::Normal;
    app.clear_search();
    None
}

fn search_enter(app: &mut App, key: KeyEvent) -> (r: Option<Action>)
    requires
        key.code == KeyCode::Enter,
    ensures
        (final(app)@, r) == search_key(old(app)@, key),
{
    reveal(search_key);
    if key.modifiers.alt {
        // Queue without leaving search
        queue_selected(app)
    } else {
        app.input_mode = InputMode::Normal;
        play_selected(app)
    }
}

fn search_edit(app: &mut App, key: KeyEvent) -> (r: Option<Action>)
    requires
        key.code == KeyCode::Tab || key.code == KeyCode::Backspace,
    ensures
        (final(app)@, r) == search_key(old(app)@, key),
{
    reveal(search_key);
    if key.code == KeyCode::Tab {
        app.toggle_search_mode();
    } else {
        app.pop_search_char();
    }
    None
}

fn search_char(app: &mut App, key: KeyEvent, c: char) -> (r: Option<Action>)
    requires
        key.code == KeyCode::Char(c),
        search_key_ok(old(app)@, key),
    ensures
        (final(app)@, r) == search_key(old(app)@, key),
{
    reveal(search_key);
    reveal(nav_search_ok);
    if c == 'd' && key.modifiers.control {
        app.half_page_down();
    } else if c == 'u' && key.modifiers.control {
        app.half_page_up();
    } else if c == 'n' && key.modifiers.control {
        app.next_scope();
    } else if c == 'p' && key.modifiers.control {
        app.prev_scope();
    } else {
        app.push_search_char(c);
    }
    None
}

fn search_move(app: &mut App, key: KeyEvent) -> (r: Option<Action>)
    requires
        key.code == KeyCode::Down || key.code == KeyCode::Up || key.code == KeyCode::PageDown
            || key.code == KeyCode::PageUp,
        search_key_ok(old(app)@, key),
    ensures
        (final(app)@, r) == search_key(old(app)@, key),
{
    reveal(search_key);
    reveal(nav_search_ok);
    if key.code == KeyCode::Down {
        app.move_down(app.visible_rows);
    } else if key.code == KeyCode::Up {
        app.move_up(app.visible_rows);
    } else if key.code == KeyCode::PageDown {
        app.page_down();
    } else {
        app.page_up();
    }
    None
}

fn search_scope_key(app: &mut App, key: KeyEvent, n: u8) -> (r: Option<Action>)
    requires
        key.code == KeyCode::F(n),
    ensures
        (final(app)@, r) == search_key(old(app)@, key),
{
    reveal(search_key);
    set_scope_key(app, n);
    None
}

pub fn handle_key_search(app: &mut App, key: KeyEvent) -> (r: Option<Action>)
    requires
        search_key_ok(old(app)@, key),
    ensures
        (final(app)@, r) == search_key(old(app)@, key),
{
    match key.code {
        KeyCode::Esc => search_esc(app, key),
        KeyCode::Enter => search_enter(app, key),
        KeyCode::Tab | KeyCode::Backspace => search_edit(app, key),
        KeyCode::Char(c) => search_char(app, key, c),
        KeyCode::Down | KeyCode::Up | KeyCode::PageDown | KeyCode::PageUp => search_move(app, key),
        KeyCode::F(n) => search_scope_key(app, key, n),
        _ => {
            proof {
                reveal(search_key);
            }
            None
        },
    }
}

// ------------------------------------------------------------------
// Normal mode
// ------------------------------------------------------------------

/// The count typed before a command: 1 when none was typed or it does not
/// parse as a `usize`.
pub open spec fn key_count(pending: Seq<char>) -> usize {
    if pending.len() == 0 {
        1
    } else {
        match parse_usize_spec(pending) {
            Some(n) => n,
            None => 1,
        }
    }
}

/// The volume used by the volume keys: the local one in local mode, Kodi's
/// otherwise.
pub open spec fn current_volume(v: AppView) -> u32 {
    if v.backend == PlaybackBackend::Local {
        v.local_volume
    } else {
        v.status.volume
    }
}

pub open spec fn is_count_digit(key: KeyEvent) -> bool {
    key.code matches KeyCode::Char(c) && is_digit(c) && no_modifiers(key.modifiers)
}

/// A command key, run with `count`, does not overflow when it moves the
/// selection or raises the volume.
pub open spec fn command_ok(v: AppView, key: KeyEvent, count: usize) -> bool {
    nav_command_ok(v.nav(), current_volume(v), key, count)
}

#[verifier::opaque]
pub open spec fn nav_command_ok(n: Nav, volume: u32, key: KeyEvent, count: usize) -> bool {
    if key.code == KeyCode::Char('j') || key.code == KeyCode::Down {
        n.down_ok(count, n.rows)
    } else if key.code == KeyCode::Char('k') || key.code == KeyCode::Up {
        n.up_ok(count, n.rows)
    } else if is_ctrl_char(key, 'd') {
        n.down_ok(n.half_page(), n.rows)
    } else if is_ctrl_char(key, 'u') {
        n.up_ok(n.half_page(), n.rows)
    } else if key.code == KeyCode::PageDown {
        n.down_ok(n.rows, n.rows)
    } else if key.code == KeyCode::PageUp {
        n.up_ok(n.rows, n.rows)
    } else if key.code == KeyCode::Char('G') {
        n.bottom_ok()
    } else if key.code == KeyCode::Char('+') || key.code == KeyCode::Char('=') {
        volume + (if key.modifiers.alt { 1int } else { 5int }) <= u32::MAX
    } else {
        true
    }
}

/// The keys of normal mode that move the selection or raise the volume do
/// not overflow.
pub open spec fn normal_key_ok(v: AppView, key: KeyEvent) -> bool {
    key.code == KeyCode::Char('g') || is_count_digit(key) || command_ok(v, key, key_count(v.pending_count))
}

/// `volume + step`, at most 100.
pub open spec fn volume_up(volume: u32, step: u32) -> u32 {
    if volume + step <= 100 {
        (volume + step) as u32
    } else {
        100
    }
}

/// `volume - step`, at least 0.
pub open spec fn volume_down(volume: u32, step: u32) -> u32 {
    if volume >= step {
        (volume - step) as u32
    } else {
        0
    }
}

pub open spec fn volume_action(v: AppView, volume: u32) -> Action {
    if v.backend == PlaybackBackend::Local {
        Action::LocalVolume(volume)
    } else {
        Action::Volume(volume)
    }
}

/// The characters of normal mode that change the browser state rather
/// than ask for playback: help, search, moving, paging with Ctrl, scopes
/// with Ctrl, bottom, track info.
pub open spec fn is_state_char(c: char, ctrl: bool) -> bool {
    c == '?' || c == '/' || c == 'j' || c == 'k' || (ctrl && (c == 'd' || c == 'u' || c == 'n' || c
        == 'p')) || c == 'G' || c == 'i'
}

/// What a state-changing character does.
pub open spec fn char_state(v: AppView, c: char, ctrl: bool, count: usize) -> AppView {
    if c == '?' {
        AppView { show_help: true, ..v }
    } else if c == '/' {
        AppView { input_mode: InputMode::Search, search_query: Seq::empty(), ..v }.at_top().refiltered()
    } else if c == 'j' {
        v.moved_down(count, v.visible_rows)
    } else if c == 'k' {
        v.moved_up(count, v.visible_rows)
    } else if c == 'd' {
        v.moved_down(v.half_page(), v.visible_rows)
    } else if c == 'u' {
        v.moved_up(v.half_page(), v.visible_rows)
    } else if c == 'n' {
        AppView { search_scope: crate::app::next_scope_of(v.search_scope), ..v }.at_top().refiltered()
    } else if c == 'p' {
        AppView { search_scope: crate::app::prev_scope_of(v.search_scope), ..v }.at_top().refiltered()
    } else if c == 'G' {
        v.select_row(v.bottom(), v.visible_rows)
    } else {
        AppView { show_track_info: true, ..v }
    }
}

/// The playback command a character asks for (the state is unchanged):
/// quit, local/remote, pause, next/previous or skip by the count, stop,
/// volume up and down (by 1 with Alt, else by 5), repeat.
pub open spec fn char_action(v: AppView, c: char, alt: bool, count: usize) -> Option<Action> {
    let local = v.backend == PlaybackBackend::Local;
    let pid = v.status.player_id;
    if c == 'q' {
        Some(Action::Quit)
    } else if c == 'L' {
        Some(Action::ToggleBackend)
    } else if c == ' ' {
        if local {
            if v.local_current_song is Some {
                Some(Action::LocalTogglePause)
            } else {
                play_action(v)
            }
        } else {
            match pid {
                Some(p) => Some(Action::TogglePause(p)),
                None => play_action(v),
            }
        }
    } else if c == 'n' {
        if local {
            if v.local_queue.len() == 0 { None } else { Some(Action::LocalSkipForward(count)) }
        } else {
            match pid {
                Some(p) => Some(if count <= 1 { Action::Next(p) } else { Action::SkipForward(count) }),
                None => None,
            }
        }
    } else if c == 'p' {
        if local {
            if v.local_queue.len() == 0 { None } else { Some(Action::LocalSkipBack(count)) }
        } else {
            match pid {
                Some(p) => Some(if count <= 1 { Action::Prev(p) } else { Action::SkipBack(count) }),
                None => None,
            }
        }
    } else if c == 's' {
        if local {
            Some(Action::LocalStop)
        } else {
            match pid {
                Some(p) => Some(Action::Stop(p)),
                None => None,
            }
        }
    } else if c == '+' || c == '=' {
        Some(volume_action(v, volume_up(current_volume(v), if alt { 1 } else { 5 })))
    } else if c == '-' {
        Some(volume_action(v, volume_down(current_volume(v), if alt { 1 } else { 5 })))
    } else if c == 'r' {
        Some(Action::ToggleRepeat)
    } else {
        None
    }
}

/// Normal mode once the count has been taken (`v` has the count cleared):
/// what each command key does.
#[verifier::opaque]
pub open spec fn normal_command(v: AppView, key: KeyEvent, count: usize) -> (AppView, Option<Action>) {
    match key.code {
        KeyCode::Char(c) => if is_state_char(c, key.modifiers.control) {
            (char_state(v, c, key.modifiers.control, count), None)
        } else {
            (v, char_action(v, c, key.modifiers.alt, count))
        },
        KeyCode::Down => (v.moved_down(count, v.visible_rows), None),
        KeyCode::Up => (v.moved_up(count, v.visible_rows), None),
        KeyCode::PageDown => (v.moved_down(v.visible_rows, v.visible_rows), None),
        KeyCode::PageUp => (v.moved_up(v.visible_rows, v.visible_rows), None),
        KeyCode::Enter => if key.modifiers.alt {
            (v, queue_action(v))
        } else {
            (v, play_action(v))
        },
        KeyCode::F(n) => match scope_key(n) {
            Some(s) => (AppView { search_scope: s, ..v }.at_top().refiltered(), None),
            None => (v, None),
        },
        _ => (v, None),
    }
}

/// Normal mode: `g` twice goes to the top (the first `g` waits for the
/// second); digits without modifiers build up a count; any other key
/// consumes the count (1 when there is none) and runs its command.
#[verifier::opaque]
pub open spec fn normal_key(v: AppView, key: KeyEvent) -> (AppView, Option<Action>) {
    if key.code == KeyCode::Char('g') {
        if v.pending_g {
            (AppView { pending_g: false, pending_count: Seq::empty(), ..v }.at_top(), None)
        } else {
            (AppView { pending_g: true, pending_count: Seq::empty(), ..v }, None)
        }
    } else if is_count_digit(key) {
        let c = key.code->Char_0;
        (AppView { pending_g: false, pending_count: v.pending_count.push(c), ..v }, None)
    } else {
        normal_command(
            AppView { pending_g: false, pending_count: Seq::empty(), ..v },
            key,
            key_count(v.pending_count),
        )
    }
}

fn take_count(app: &mut App) -> (count: usize)
    ensures
        count == key_count(old(app)@.pending_count),
        final(app)@ == (AppView { pending_count: Seq::empty(), ..old(app)@ }),
{
    let count: usize = if app.pending_count.as_str().is_empty() {
        1
    } else {
        match parse_usize(app.pending_count.as_str()) {
            Some(n) => n,
            None => 1,
        }
    };
    clear_string(&mut app.pending_count);
    count
}

fn volume_key(app: &App, step: u32, up: bool) -> (r: Option<Action>)
    requires
        up ==> current_volume(app@) + step <= u32::MAX,
    ensures
        r == Some(volume_action(app@, if up { volume_up(current_volume(app@), step) } else {
            volume_down(current_volume(app@), step)
        })),
{
    let volume = if app.backend == PlaybackBackend::Local {
        app.local_volume
    } else {
        app.status.volume
    };
    let vol = if up {
        let t = volume + step;
        if t <= 100 { t } else { 100 }
    } else if volume >= step {
        volume - step
    } else {
        0
    };
    if app.backend == PlaybackBackend::Local {
        Some(Action::LocalVolume(vol))
    } else {
        Some(Action::Volume(vol))
    }
}

fn skip_key(app: &App, count: usize, forward: bool) -> (r: Option<Action>)
    ensures
        r == char_action(app@, if forward { 'n' } else { 'p' }, false, count),
{
    if app.backend == PlaybackBackend::Local {
        if app.local_queue.is_empty() {
            None
        } else if forward {
            Some(Action::LocalSkipForward(count))
        } else {
            Some(Action::LocalSkipBack(count))
        }
    } else {
        match app.status.player_id {
            Some(pid) => if count <= 1 {
                Some(if forward { Action::Next(pid) } else { Action::Prev(pid) })
            } else {
                Some(if forward { Action::SkipForward(count) } else { Action::SkipBack(count) })
            },
            None => None,
        }
    }
}

fn action_char(app: &App, c: char, alt: bool, count: usize) -> (r: Option<Action>)
    requires
        (c == '+' || c == '=') ==> current_volume(app@) + (if alt { 1int } else { 5int }) <= u32::MAX,
    ensures
        r == char_action(app@, c, alt, count),
{
    if c == 'q' {
        Some(Action::Quit)
    } else if c == 'L' {
        Some(Action::ToggleBackend)
    } else if c == ' ' {
        if app.backend == PlaybackBackend::Local {
            if app.local_current_song.is_some() {
                Some(Action::LocalTogglePause)
            } else {
                play_selected(app)
            }
        } else if let Some(pid) = app.status.player_id {
            Some(Action::TogglePause(pid))
        } else {
            play_selected(app)
        }
    } else if c == 'n' {
        skip_key(app, count, true)
    } else if c == 'p' {
        skip_key(app, count, false)
    } else if c == 's' {
        if app.backend == PlaybackBackend::Local {
            Some(Action::LocalStop)
        } else {
            match app.status.player_id {
                Some(pid) => Some(Action::Stop(pid)),
                None => None,
            }
        }
    } else if c == '+' || c == '=' {
        volume_key(app, if alt { 1 } else { 5 }, true)
    } else if c == '-' {
        volume_key(app, if alt { 1 } else { 5 }, false)
    } else if c == 'r' {
        Some(Action::ToggleRepeat)
    } else {
        None
    }
}

fn state_char(app: &mut App, c: char, ctrl: bool, count: usize)
    requires
        is_state_char(c, ctrl),
        c == 'j' ==> old(app)@.down_ok(count, old(app).visible_rows),
        c == 'k' ==> old(app)@.up_ok(count, old(app).visible_rows),
        (c == 'd' && ctrl) ==> old(app)@.down_ok(old(app)@.half_page(), old(app).visible_rows),
        (c == 'u' && ctrl) ==> old(app)@.up_ok(old(app)@.half_page(), old(app).visible_rows),
        c == 'G' ==> old(app)@.bottom_ok(),
    ensures
        final(app)@ == char_state(old(app)@, c, ctrl, count),
{
    if c == '?' {
        app.show_help = true;
    } else if c == '/' {
        app.input_mode = InputMode::Search;
        app.clear_search();
    } else if c == 'j' {
        app.move_down_by(count, app.visible_rows);
    } else if c == 'k' {
        app.move_up_by(count, app.visible_rows);
    } else if c == 'd' {
        app.half_page_down();
    } else if c == 'u' {
        app.half_page_up();
    } else if c == 'n' {
        app.next_scope();
    } else if c == 'p' {
        app.prev_scope();
    } else if c == 'G' {
        app.go_bottom();
    } else {
        app.show_track_info = true;
    }
}

fn char_command(app: &mut App, c: char, key: KeyEvent, count: usize) -> (r: Option<Action>)
    requires
        key.code == KeyCode::Char(c),
        command_ok(old(app)@, key, count),
    ensures
        (final(app)@, r) == normal_command(old(app)@, key, count),
{
    reveal(normal_command);
    reveal(nav_command_ok);
    if c == '?' || c == '/' || c == 'j' || c == 'k' || (key.modifiers.control && (c == 'd' || c == 'u'
        || c == 'n' || c == 'p')) || c == 'G' || c == 'i' {
        state_char(app, c, key.modifiers.control, count);
        None
    } else {
        action_char(app, c, key.modifiers.alt, count)
    }
}

fn run_command(app: &mut App, key: KeyEvent, count: usize) -> (r: Option<Action>)
    requires
        command_ok(old(app)@, key, count),
    ensures
        (final(app)@, r) == normal_command(old(app)@, key, count),
{
    reveal(normal_command);
    reveal(nav_command_ok);
    match key.code {
        KeyCode::Char(c) => char_command(app, c, key, count),
        KeyCode::Down => {
            app.move_down_by(count, app.visible_rows);
            None
        },
        KeyCode::Up => {
            app.move_up_by(count, app.visible_rows);
            None
        },
        KeyCode::PageDown => {
            app.page_down();
            None
        },
        KeyCode::PageUp => {
            app.page_up();
            None
        },
        KeyCode::Enter => {
            if key.modifiers.alt {
                queue_selected(app)
            } else {
                play_selected(app)
            }
        },
        KeyCode::F(n) => {
            set_scope_key(app, n);
            None
        },
        _ => None,
    }
}

fn normal_g(app: &mut App, key: KeyEvent) -> (r: Option<Action>)
    requires
        key.code == KeyCode::Char('g'),
    ensures
        (final(app)@, r) == normal_key(old(app)@, key),
{
    reveal(normal_key);
    if app.pending_g {
        app.pending_g = false;
        clear_string(&mut app.pending_count);
        app.go_top();
    } else {
        app.pending_g = true;
        clear_string(&mut app.pending_count);
    }
    None
}

fn normal_digit(app: &mut App, key: KeyEvent, c: char) -> (r: Option<Action>)
    requires
        key.code == KeyCode::Char(c),
        key.code != KeyCode::Char('g'),
        is_count_digit(key),
    ensures
        (final(app)@, r) == normal_key(old(app)@, key),
{
    reveal(normal_key);
    app.pending_g = false;
    push_char(&mut app.pending_count, c);
    None
}

fn normal_other(app: &mut App, key: KeyEvent) -> (r: Option<Action>)
    requires
        key.code != KeyCode::Char('g'),
        !is_count_digit(key),
        normal_key_ok(old(app)@, key),
    ensures
        (final(app)@, r) == normal_key(old(app)@, key),
{
    reveal(normal_key);
    app.pending_g = false;
    // Consume and clear the accumulated count for the next action
    let count = take_count(app);
    run_command(app, key, count)
}

pub fn handle_key_normal(app: &mut App, key: KeyEvent) -> (r: Option<Action>)
    requires
        normal_key_ok(old(app)@, key),
    ensures
        (final(app)@, r) == normal_key(old(app)@, key),
{
    if key.code == KeyCode::Char('g') {
        return normal_g(app, key);
    }
    // Accumulate numeric count prefix (digits only; no modifier)
    if let KeyCode::Char(c) = key.code {
        let m = key.modifiers;
        if '0' <= c && c <= '9' && !m.shift && !m.control && !m.alt && !m.other {
            return normal_digit(app, key, c);
        }
    }
    normal_other(app, key)
}

// ------------------------------------------------------------------
// Any mode
// ------------------------------------------------------------------

/// The key does not overflow in the mode it is handled in.
pub open spec fn key_ok(v: AppView, key: KeyEvent) -> bool {
    v.show_help || v.show_track_info || (if v.input_mode == InputMode::Search {
        search_key_ok(v, key)
    } else {
        normal_key_ok(v, key)
    })
}

/// An open overlay (help, then track info) takes any key and closes;
/// otherwise the key goes to search mode or to normal mode.
pub open spec fn key_effect(v: AppView, key: KeyEvent) -> (AppView, Option<Action>) {
    if v.show_help {
        (AppView { show_help: false, ..v }, None)
    } else if v.show_track_info {
        (AppView { show_track_info: false, ..v }, None)
    } else if v.input_mode == InputMode::Search {
        search_key(v, key)
    } else {
        normal_key(v, key)
    }
}

pub fn handle_key(app: &mut App, key: KeyEvent) -> (r: Option<Action>)
    requires
        key_ok(old(app)@, key),
    ensures
        (final(app)@, r) == key_effect(old(app)@, key),
{
    // Overlays intercept all keys — any key closes them
    if app.show_help {
        app.show_help = false;
        return None;
    }
    if app.show_track_info {
        app.show_track_info = false;
        return None;
    }
    match app.input_mode {
        InputMode::Search => handle_key_search(app, key),
        InputMode::Normal | InputMode::Command => handle_key_normal(app, key),
    }
}

// ------------------------------------------------------------------
// Checking a key before it is handled
// ------------------------------------------------------------------

fn clamp_fits(selected: usize, offset: usize, rows: usize) -> (r: bool)
    ensures
        r == clamp_ok(selected, offset, rows),
{
    if rows == 0 || selected < offset {
        true
    } else if offset > usize::MAX - rows {
        false
    } else {
        selected < offset + rows || selected < usize::MAX
    }
}

fn down_fits(len: usize, selected: usize, offset: usize, n: usize, rows: usize) -> (r: bool)
    ensures
        r == (Nav { len: len as nat, selected, offset, rows: 0 }).down_ok(n, rows),
{
    if len == 0 {
        return true;
    }
    if selected > usize::MAX - n {
        return false;
    }
    let last = len - 1;
    let target = if selected + n < last { selected + n } else { last };
    clamp_fits(target, offset, rows)
}

fn up_fits(selected: usize, offset: usize, n: usize, rows: usize) -> (r: bool)
    ensures
        r == (Nav { len: 0, selected, offset, rows: 0 }).up_ok(n, rows),
{
    let target = if selected >= n { selected - n } else { 0 };
    clamp_fits(target, offset, rows)
}

fn half_rows(rows: usize) -> (h: usize)
    ensures
        h == (Nav { len: 0, selected: 0, offset: 0, rows }).half_page(),
{
    if rows / 2 > 1 { rows / 2 } else { 1 }
}

/// Whether handling `key` now stays within the machine's integers: moving
/// the selection by a typed count, or raising a volume, must not overflow.
/// A caller checks this before `handle_key`.
pub fn key_allowed(app: &App, key: KeyEvent) -> (r: bool)
    ensures
        r == key_ok(app@, key),
{
    if app.show_help || app.show_track_info {
        return true;
    }
    let len = app.filtered_items.len();
    let sel = app.selected;
    let off = app.list_offset;
    let rows = app.visible_rows;
    let half = half_rows(rows);
    let ctrl_d = key.code == KeyCode::Char('d') && key.modifiers.control;
    let ctrl_u = key.code == KeyCode::Char('u') && key.modifiers.control;
    proof {
        reveal(nav_search_ok);
        reveal(nav_command_ok);
    }
    match app.input_mode {
        InputMode::Search => {
            if ctrl_d {
                down_fits(len, sel, off, half, rows)
            } else if ctrl_u {
                up_fits(sel, off, half, rows)
            } else if key.code == KeyCode::Down {
                down_fits(len, sel, off, 1, rows)
            } else if key.code == KeyCode::Up {
                up_fits(sel, off, 1, rows)
            } else if key.code == KeyCode::PageDown {
                down_fits(len, sel, off, rows, rows)
            } else if key.code == KeyCode::PageUp {
                up_fits(sel, off, rows, rows)
            } else {
                true
            }
        },
        _ => {
            if key.code == KeyCode::Char('g') {
                return true;
            }
            if let KeyCode::Char(c) = key.code {
                let m = key.modifiers;
                if '0' <= c && c <= '9' && !m.shift && !m.control && !m.alt && !m.other {
                    return true;
                }
            }
            let count: usize = if app.pending_count.as_str().is_empty() {
                1
            } else {
                match parse_usize(app.pending_count.as_str()) {
                    Some(n) => n,
                    None => 1,
                }
            };
            let volume = if app.backend == PlaybackBackend::Local {
                app.local_volume
            } else {
                app.status.volume
            };
            if key.code == KeyCode::Char('j') || key.code == KeyCode::Down {
                down_fits(len, sel, off, count, rows)
            } else if key.code == KeyCode::Char('k') || key.code == KeyCode::Up {
                up_fits(sel, off, count, rows)
            } else if ctrl_d {
                down_fits(len, sel, off, half, rows)
            } else if ctrl_u {
                up_fits(sel, off, half, rows)
            } else if key.code == KeyCode::PageDown {
                down_fits(len, sel, off, rows, rows)
            } else if key.code == KeyCode::PageUp {
                up_fits(sel, off, rows, rows)
            } else if key.code == KeyCode::Char('G') {
                let bottom = if len == 0 { 0 } else { len - 1 };
                clamp_fits(bottom, off, rows)
            } else if key.code == KeyCode::Char('+') || key.code == KeyCode::Char('=') {
                let step: u32 = if key.modifiers.alt { 1 } else { 5 };
                volume <= u32::MAX - step
            } else {
                true
            }
        },
    }
}

} // verus!
