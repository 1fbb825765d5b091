//! The browser's state: library lists, the filtered view, the selection and
//! scrolling, the search query, and the local play queue.
use vstd::prelude::*;
use crate::config::{Theme, ThemeView};
use crate::kodi::{
    idle_status, Album, AlbumView, Artist, ArtistView, PlayerStatus, PlayerStatusView, Song, SongView,
};
use crate::search::{
    albums_view, artists_view, filter_albums, filter_artists, filter_songs, filtered_albums,
    filtered_artists, filtered_songs, songs_view,
};
use crate::text::{
    clear_string, decimal, join, join_strings, lowercase, pop_char, push_char, push_decimal, push_str,
    string_from, to_lowercase,
};

verus! {

#[derive(Debug, Clone, Copy, PartialEq, Eq, Structural)]
pub enum PlaybackBackend {
    Remote,
    Local,
}

#[derive(Debug, Clone, Copy, PartialEq, Eq, Structural)]
pub enum RepeatMode {
    Off,
    Track,
    Queue,
}

#[derive(Debug, Clone, Copy, PartialEq, Eq, Structural)]
pub enum SearchScope {
    All,
    Artists,
    Albums,
    Songs,
}

#[derive(Debug, Clone, Copy, PartialEq, Eq, Structural)]
pub enum SearchMode {
    Exact,
    Fuzzy,
}

#[derive(Debug, Clone, Copy, PartialEq, Eq, Structural)]
pub enum InputMode {
    Normal,
    Search,
    Command,
}

#[derive(Debug)]
pub enum LibraryItem {
    Artist(Artist),
    Album(Album),
    Song(Song),
}

pub enum ItemView {
    Artist(ArtistView),
    Album(AlbumView),
    Song(SongView),
}

impl View for LibraryItem {
    type V = ItemView;

    open spec fn view(&self) -> ItemView {
        match self {
            LibraryItem::Artist(a) => ItemView::Artist(a@),
            LibraryItem::Album(a) => ItemView::Album(a@),
            LibraryItem::Song(s) => ItemView::Song(s@),
        }
    }
}

impl Clone for LibraryItem {
    fn clone(&self) -> (r: Self)
        ensures
            r@ == self@,
    {
        match self {
            LibraryItem::Artist(a) => LibraryItem::Artist(a.clone()),
            LibraryItem::Album(a) => LibraryItem::Album(a.clone()),
            LibraryItem::Song(s) => LibraryItem::Song(s.clone()),
        }
    }
}

/// The views of a list of items.
pub open spec fn items_view(items: Seq<LibraryItem>) -> Seq<ItemView> {
    items.map_values(|i: LibraryItem| i@)
}

pub open spec fn item_label(item: ItemView) -> Seq<char> {
    match item {
        ItemView::Artist(a) => a.label,
        ItemView::Album(a) => a.label,
        ItemView::Song(s) => s.label,
    }
}

pub open spec fn item_type_label(item: ItemView) -> Seq<char> {
    match item {
        ItemView::Artist(_) => seq!['A', 'r', 't', 'i', 's', 't'],
        ItemView::Album(_) => seq!['A', 'l', 'b', 'u', 'm'],
        ItemView::Song(_) => seq!['S', 'o', 'n', 'g'],
    }
}

/// The em dash between a song's artists and its album.
pub open spec fn dash_separator() -> Seq<char> {
    seq![' ', '\u{2014}', ' ']
}

pub open spec fn comma_separator() -> Seq<char> {
    seq![',', ' ']
}

/// The second line shown for an item: nothing for an artist; the artists
/// and, when known and positive, the year for an album; the artists and the
/// album for a song.
pub open spec fn item_subtitle(item: ItemView) -> Seq<char> {
    match item {
        ItemView::Artist(_) => Seq::empty(),
        ItemView::Album(a) => {
            let artist = join(a.artist, comma_separator());
            match a.year {
                Some(y) => if y > 0 {
                    artist + seq![' ', '('] + decimal(y as nat) + seq![')']
                } else {
                    artist
                },
                None => artist,
            }
        },
        ItemView::Song(s) => join(s.artist, comma_separator()) + dash_separator() + s.album,
    }
}

impl LibraryItem {
    pub fn display_label(&self) -> (r: &str)
        ensures
            r@ == item_label(self@),
    {
        match self {
            LibraryItem::Artist(a) => a.label.as_str(),
            LibraryItem::Album(a) => a.label.as_str(),
            LibraryItem::Song(s) => s.label.as_str(),
        }
    }

    pub fn type_label(&self) -> (r: &str)
        ensures
            r@ == item_type_label(self@),
    {
        proof {
            reveal_strlit("Artist");
            reveal_strlit("Album");
            reveal_strlit("Song");
        }
        match self {
            LibraryItem::Artist(_) => "Artist",
            LibraryItem::Album(_) => "Album",
            LibraryItem::Song(_) => "Song",
        }
    }

    pub fn subtitle(&self) -> (r: String)
        ensures
            r@ == item_subtitle(self@),
    {
        proof {
            reveal_strlit(", ");
            assert(", "@ =~= comma_separator());
        }
        match self {
            LibraryItem::Artist(_) => {
                String::new()
            },
            LibraryItem::Album(a) => {
                let mut artist = join_strings(&a.artist, ", ");
                if let Some(y) = a.year {
                    if y > 0 {
                        push_char(&mut artist, ' ');
                        push_char(&mut artist, '(');
                        push_decimal(&mut artist, y as u64);
                        push_char(&mut artist, ')');
                        artist
                    } else {
                        artist
                    }
                } else {
                    artist
                }
            },
            LibraryItem::Song(s) => {
                let mut r = join_strings(&s.artist, ", ");
                push_char(&mut r, ' ');
                push_char(&mut r, '\u{2014}');
                push_char(&mut r, ' ');
                push_str(&mut r, s.album.as_str());
                r
            },
        }
    }
}

// ------------------------------------------------------------------
// The application state
// ------------------------------------------------------------------

pub struct App {
    pub status: PlayerStatus,
    pub input_mode: InputMode,
    pub search_scope: SearchScope,
    pub search_mode: SearchMode,
    pub search_query: String,
    pub all_artists: Vec<Artist>,
    pub all_albums: Vec<Album>,
    pub all_songs: Vec<Song>,
    pub filtered_items: Vec<LibraryItem>,
    pub selected: usize,
    pub list_offset: usize,
    pub status_message: Option<String>,
    pub loading: bool,
    pub library_loaded: bool,
    pub artists_loaded: bool,
    pub albums_loaded: bool,
    pub songs_loaded: bool,
    pub visible_rows: usize,
    pub pending_g: bool,
    pub show_help: bool,
    pub backend: PlaybackBackend,
    pub remote_queue: Vec<Song>,
    pub local_queue: Vec<Song>,
    pub local_queue_pos: usize,
    pub local_current_song: Option<Song>,
    pub local_paused: bool,
    pub local_fetching: bool,
    pub local_volume: u32,
    pub local_position: u32,
    pub pending_count: String,
    pub repeat_mode: RepeatMode,
    pub show_track_info: bool,
    pub theme: Theme,
}

pub struct AppView {
    pub status: PlayerStatusView,
    pub input_mode: InputMode,
    pub search_scope: SearchScope,
    pub search_mode: SearchMode,
    pub search_query: Seq<char>,
    pub all_artists: Seq<ArtistView>,
    pub all_albums: Seq<AlbumView>,
    pub all_songs: Seq<SongView>,
    pub filtered_items: Seq<ItemView>,
    pub selected: usize,
    pub list_offset: usize,
    pub status_message: Option<Seq<char>>,
    pub loading: bool,
    pub library_loaded: bool,
    pub artists_loaded: bool,
    pub albums_loaded: bool,
    pub songs_loaded: bool,
    pub visible_rows: usize,
    pub pending_g: bool,
    pub show_help: bool,
    pub backend: PlaybackBackend,
    pub remote_queue: Seq<SongView>,
    pub local_queue: Seq<SongView>,
    pub local_queue_pos: usize,
    pub local_current_song: Option<SongView>,
    pub local_paused: bool,
    pub local_fetching: bool,
    pub local_volume: u32,
    pub local_position: u32,
    pub pending_count: Seq<char>,
    pub repeat_mode: RepeatMode,
    pub show_track_info: bool,
    pub theme: ThemeView,
}

pub open spec fn opt_string_view(s: Option<String>) -> Option<Seq<char>> {
    match s {
        Some(t) => Some(t@),
        None => None,
    }
}

pub open spec fn opt_song_view(s: Option<Song>) -> Option<SongView> {
    match s {
        Some(t) => Some(t@),
        None => None,
    }
}

impl View for App {
    type V = AppView;

    open spec fn view(&self) -> AppView {
        AppView {
            status: self.status@,
            input_mode: self.input_mode,
            search_scope: self.search_scope,
            search_mode: self.search_mode,
            search_query: self.search_query@,
            all_artists: artists_view(self.all_artists@),
            all_albums: albums_view(self.all_albums@),
            all_songs: songs_view(self.all_songs@),
            filtered_items: items_view(self.filtered_items@),
            selected: self.selected,
            list_offset: self.list_offset,
            status_message: opt_string_view(self.status_message),
            loading: self.loading,
            library_loaded: self.library_loaded,
            artists_loaded: self.artists_loaded,
            albums_loaded: self.albums_loaded,
            songs_loaded: self.songs_loaded,
            visible_rows: self.visible_rows,
            pending_g: self.pending_g,
            show_help: self.show_help,
            backend: self.backend,
            remote_queue: songs_view(self.remote_queue@),
            local_queue: songs_view(self.local_queue@),
            local_queue_pos: self.local_queue_pos,
            local_current_song: opt_song_view(self.local_current_song),
            local_paused: self.local_paused,
            local_fetching: self.local_fetching,
            local_volume: self.local_volume,
            local_position: self.local_position,
            pending_count: self.pending_count@,
            repeat_mode: self.repeat_mode,
            show_track_info: self.show_track_info,
            theme: self.theme@,
        }
    }
}

pub open spec fn next_repeat(m: RepeatMode) -> RepeatMode {
    match m {
        RepeatMode::Off => RepeatMode::Track,
        RepeatMode::Track => RepeatMode::Queue,
        RepeatMode::Queue => RepeatMode::Off,
    }
}

pub open spec fn other_backend(b: PlaybackBackend) -> PlaybackBackend {
    match b {
        PlaybackBackend::Remote => PlaybackBackend::Local,
        PlaybackBackend::Local => PlaybackBackend::Remote,
    }
}

pub open spec fn other_mode(m: SearchMode) -> SearchMode {
    match m {
        SearchMode::Exact => SearchMode::Fuzzy,
        SearchMode::Fuzzy => SearchMode::Exact,
    }
}

/// All, Artists, Albums, Songs, and round again.
pub open spec fn next_scope_of(s: SearchScope) -> SearchScope {
    match s {
        SearchScope::All => SearchScope::Artists,
        SearchScope::Artists => SearchScope::Albums,
        SearchScope::Albums => SearchScope::Songs,
        SearchScope::Songs => SearchScope::All,
    }
}

pub open spec fn prev_scope_of(s: SearchScope) -> SearchScope {
    match s {
        SearchScope::All => SearchScope::Songs,
        SearchScope::Artists => SearchScope::All,
        SearchScope::Albums => SearchScope::Artists,
        SearchScope::Songs => SearchScope::Albums,
    }
}

#[verifier::opaque]
/// What a (lowercased) query selects in a scope: one list, or for `All` the
/// artists, then the albums, then the songs.
pub open spec fn search_results_of(
    scope: SearchScope,
    mode: SearchMode,
    q: Seq<char>,
    artists: Seq<ArtistView>,
    albums: Seq<AlbumView>,
    songs: Seq<SongView>,
) -> Seq<ItemView> {
    match scope {
        SearchScope::Artists => filtered_artists(artists, q, mode),
        SearchScope::Albums => filtered_albums(albums, q, mode),
        SearchScope::Songs => filtered_songs(songs, q, mode),
        SearchScope::All => filtered_artists(artists, q, mode) + filtered_albums(albums, q, mode)
            + filtered_songs(songs, q, mode),
    }
}

/// The selection after the list changed to `len` items: kept if still in
/// range, else moved to the last item (or 0 for an empty list).
pub open spec fn selected_after(selected: usize, len: nat) -> usize {
    if selected >= len {
        if len == 0 {
            0
        } else {
            (len - 1) as usize
        }
    } else {
        selected
    }
}

/// The first visible row after scrolling just enough that `selected` is in
/// a window of `rows` rows (no change when `rows` is 0).
pub open spec fn clamped_offset(selected: usize, offset: usize, rows: usize) -> usize {
    if rows == 0 {
        offset
    } else if selected < offset {
        selected
    } else if selected >= offset + rows {
        (selected + 1 - rows) as usize
    } else {
        offset
    }
}

/// Scrolling to `selected` does not overflow.
pub open spec fn clamp_ok(selected: usize, offset: usize, rows: usize) -> bool {
    rows == 0 || selected < offset || (offset + rows <= usize::MAX && (selected >= offset + rows
        ==> selected < usize::MAX))
}

pub open spec fn word_artists() -> Seq<char> {
    seq!['a', 'r', 't', 'i', 's', 't', 's']
}

pub open spec fn word_albums() -> Seq<char> {
    seq!['a', 'l', 'b', 'u', 'm', 's']
}

pub open spec fn word_songs() -> Seq<char> {
    seq!['s', 'o', 'n', 'g', 's']
}

/// The lists still being loaded, in the order artists, albums, songs.
pub open spec fn pending_lists(artists: bool, albums: bool, songs: bool) -> Seq<Seq<char>> {
    (if artists { Seq::empty() } else { seq![word_artists()] }) + (if albums { Seq::empty() } else {
        seq![word_albums()]
    }) + (if songs { Seq::empty() } else { seq![word_songs()] })
}

/// "Loading " + the pending lists + an ellipsis.
pub open spec fn loading_text(pending: Seq<Seq<char>>) -> Seq<char> {
    seq!['L', 'o', 'a', 'd', 'i', 'n', 'g', ' '] + join(pending, comma_separator()) + seq!['\u{2026}']
}

pub open spec fn initial_message() -> Seq<char> {
    seq!['L', 'o', 'a', 'd', 'i', 'n', 'g', ' ', 'l', 'i', 'b', 'r', 'a', 'r', 'y', '\u{2026}']
}

/// A fresh application: nothing loaded, searching everything by exact
/// match, remote playback, a window of 20 rows.
pub open spec fn initial_app(theme: ThemeView) -> AppView {
    AppView {
        status: idle_status(),
        input_mode: InputMode::Normal,
        search_scope: SearchScope::All,
        search_mode: SearchMode::Exact,
        search_query: Seq::empty(),
        all_artists: Seq::empty(),
        all_albums: Seq::empty(),
        all_songs: Seq::empty(),
        filtered_items: Seq::empty(),
        selected: 0,
        list_offset: 0,
        status_message: Some(initial_message()),
        loading: true,
        library_loaded: false,
        artists_loaded: false,
        albums_loaded: false,
        songs_loaded: false,
        visible_rows: 20,
        pending_g: false,
        show_help: false,
        backend: PlaybackBackend::Remote,
        remote_queue: Seq::empty(),
        local_queue: Seq::empty(),
        local_queue_pos: 0,
        local_current_song: None,
        local_paused: false,
        local_fetching: false,
        local_volume: 100,
        local_position: 0,
        pending_count: Seq::empty(),
        repeat_mode: RepeatMode::Off,
        show_track_info: false,
        theme,
    }
}

impl AppView {
    /// What the current query selects from the library.
    pub open spec fn search_results(self) -> Seq<ItemView> {
        search_results_of(
            self.search_scope,
            self.search_mode,
            lowercase(self.search_query),
            self.all_artists,
            self.all_albums,
            self.all_songs,
        )
    }

    /// Recomputing the list and scrolling to the selection does not overflow.
    pub open spec fn can_refilter(self) -> bool {
        clamp_ok(selected_after(self.selected, self.search_results().len()), self.list_offset, self.visible_rows)
    }

    /// The state after the list is recomputed from the query: the selection
    /// is kept in range and scrolled into the window.
    #[verifier::opaque]
    pub open spec fn refiltered(self) -> AppView {
        let items = self.search_results();
        let sel = selected_after(self.selected, items.len());
        AppView {
            filtered_items: items,
            selected: sel,
            list_offset: clamped_offset(sel, self.list_offset, self.visible_rows),
            ..self
        }
    }

    /// The selection moved to `sel` and scrolled into a window of `rows` rows.
    pub open spec fn select_row(self, sel: usize, rows: usize) -> AppView {
        AppView { selected: sel, list_offset: clamped_offset(sel, self.list_offset, rows), ..self }
    }

    /// Selection and scrolling back at the top.
    pub open spec fn at_top(self) -> AppView {
        AppView { selected: 0, list_offset: 0, ..self }
    }

    /// The loading flags and message after a list has arrived: when all
    /// three are in, loading is over and the message cleared; otherwise the
    /// message names the lists still pending.
    #[verifier::opaque]
    pub open spec fn loading_updated(self) -> AppView {
        let pending = pending_lists(self.artists_loaded, self.albums_loaded, self.songs_loaded);
        if pending.len() == 0 {
            AppView { loading: false, library_loaded: true, status_message: None, ..self }
        } else {
            AppView { status_message: Some(loading_text(pending)), ..self }
        }
    }

    /// The part of the state that moving the selection looks at.
    pub open spec fn nav(self) -> Nav {
        Nav {
            len: self.filtered_items.len(),
            selected: self.selected,
            offset: self.list_offset,
            rows: self.visible_rows,
        }
    }

    pub open spec fn down_target(self, n: int) -> int {
        self.nav().down_target(n)
    }

    pub open spec fn down_ok(self, n: usize, rows: usize) -> bool {
        self.nav().down_ok(n, rows)
    }

    /// The selection `n` rows down (kept on the last item), scrolled into a
    /// window of `rows`; nothing changes for an empty list.
    #[verifier::opaque]
    pub open spec fn moved_down(self, n: usize, rows: usize) -> AppView {
        if self.filtered_items.len() == 0 {
            self
        } else {
            self.select_row(self.down_target(n as int) as usize, rows)
        }
    }

    pub open spec fn up_target(self, n: usize) -> usize {
        self.nav().up_target(n)
    }

    pub open spec fn up_ok(self, n: usize, rows: usize) -> bool {
        self.nav().up_ok(n, rows)
    }

    /// The selection `n` rows up (stopping at the top), scrolled into a
    /// window of `rows`.
    #[verifier::opaque]
    pub open spec fn moved_up(self, n: usize, rows: usize) -> AppView {
        self.select_row(self.up_target(n), rows)
    }

    pub open spec fn bottom(self) -> usize {
        self.nav().bottom()
    }

    pub open spec fn bottom_ok(self) -> bool {
        self.nav().bottom_ok()
    }

    pub open spec fn half_page(self) -> usize {
        self.nav().half_page()
    }
}

/// The length of the visible list, the selection, the first visible row and
/// the window height.
pub struct Nav {
    pub len: nat,
    pub selected: usize,
    pub offset: usize,
    pub rows: usize,
}

impl Nav {
    /// `n` rows further down, stopping at the last item.
    pub open spec fn down_target(self, n: int) -> int {
        let last = self.len - 1;
        if self.selected + n < last {
            self.selected + n
        } else {
            last
        }
    }

    /// Moving the selection `n` rows down, within a window of `rows`, does
    /// not overflow.
    pub open spec fn down_ok(self, n: usize, rows: usize) -> bool {
        self.len == 0 || (self.selected + n <= usize::MAX && clamp_ok(
            self.down_target(n as int) as usize,
            self.offset,
            rows,
        ))
    }

    /// `selected - n`, stopping at 0.
    pub open spec fn up_target(self, n: usize) -> usize {
        if self.selected >= n {
            (self.selected - n) as usize
        } else {
            0
        }
    }

    pub open spec fn up_ok(self, n: usize, rows: usize) -> bool {
        clamp_ok(self.up_target(n), self.offset, rows)
    }

    /// The last item, or 0 for an empty list.
    pub open spec fn bottom(self) -> usize {
        selected_after(usize::MAX, self.len)
    }

    pub open spec fn bottom_ok(self) -> bool {
        clamp_ok(self.bottom(), self.offset, self.rows)
    }

    /// Half a window, at least one row.
    pub open spec fn half_page(self) -> usize {
        if self.rows / 2 > 1 {
            (self.rows / 2) as usize
        } else {
            1
        }
    }
}

pub proof fn lemma_loading_keeps_results(v: AppView)
    ensures
        v.loading_updated().search_results() == v.search_results(),
        v.loading_updated().can_refilter() == v.can_refilter(),
{
    reveal(AppView::loading_updated);
}

/// Recomputing the list changes only the list, the selection and the scroll
/// position.
pub proof fn lemma_refiltered_frame(v: AppView)
    ensures
        v.refiltered() == (AppView {
            filtered_items: v.refiltered().filtered_items,
            selected: v.refiltered().selected,
            list_offset: v.refiltered().list_offset,
            ..v
        }),
{
    reveal(AppView::refiltered);
}

pub proof fn lemma_top_can_refilter(v: AppView)
    requires
        v.selected == 0,
        v.list_offset == 0,
    ensures
        v.can_refilter(),
{
}

/// The selection and the window are far enough from the largest index
/// that recomputing the list and scrolling to the selection cannot overflow.
pub open spec fn window_ok(v: AppView) -> bool {
    &&& v.selected < usize::MAX
    &&& v.list_offset + v.visible_rows <= usize::MAX
    &&& v.selected + v.visible_rows <= usize::MAX
}

/// A window that fits lets the list be recomputed, and still fits after.
pub proof fn lemma_window_ok(v: AppView)
    requires
        window_ok(v),
    ensures
        v.can_refilter(),
        window_ok(v.refiltered()),
{
    reveal(AppView::refiltered);
}

impl App {
    pub fn new(theme: Theme) -> (app: Self)
        ensures
            app@ == initial_app(theme@),
    {
        proof {
            reveal_strlit("Loading library");
        }
        let mut msg = string_from("Loading library");
        push_char(&mut msg, '\u{2026}');
        assert(msg@ =~= initial_message());
        let app = App {
            status: PlayerStatus::default(),
            input_mode: InputMode::Normal,
            search_scope: SearchScope::All,
            search_mode: SearchMode::Exact,
            search_query: String::new(),
            all_artists: Vec::new(),
            all_albums: Vec::new(),
            all_songs: Vec::new(),
            filtered_items: Vec::new(),
            selected: 0,
            list_offset: 0,
            status_message: Some(msg),
            loading: true,
            library_loaded: false,
            artists_loaded: false,
            albums_loaded: false,
            songs_loaded: false,
            visible_rows: 20,
            pending_g: false,
            show_help: false,
            backend: PlaybackBackend::Remote,
            remote_queue: Vec::new(),
            local_queue: Vec::new(),
            local_queue_pos: 0,
            local_current_song: None,
            local_paused: false,
            local_fetching: false,
            local_volume: 100,
            local_position: 0,
            pending_count: String::new(),
            repeat_mode: RepeatMode::Off,
            show_track_info: false,
            theme,
        };
        assert(artists_view(app.all_artists@) =~= Seq::<ArtistView>::empty());
        assert(albums_view(app.all_albums@) =~= Seq::<AlbumView>::empty());
        assert(songs_view(app.all_songs@) =~= Seq::<SongView>::empty());
        assert(songs_view(app.remote_queue@) =~= Seq::<SongView>::empty());
        assert(songs_view(app.local_queue@) =~= Seq::<SongView>::empty());
        assert(items_view(app.filtered_items@) =~= Seq::<ItemView>::empty());
        assert(app.search_query@ =~= Seq::<char>::empty());
        assert(app.pending_count@ =~= Seq::<char>::empty());
        app
    }

    pub fn cycle_repeat(&mut self)
        ensures
            final(self)@ == (AppView { repeat_mode: next_repeat(old(self).repeat_mode), ..old(self)@ }),
    {
        self.repeat_mode = match self.repeat_mode {
            RepeatMode::Off => RepeatMode::Track,
            RepeatMode::Track => RepeatMode::Queue,
            RepeatMode::Queue => RepeatMode::Off,
        };
    }

    pub fn toggle_backend(&mut self)
        ensures
            final(self)@ == (AppView { backend: other_backend(old(self).backend), ..old(self)@ }).at_top().refiltered(),
    {
        self.backend = match self.backend {
            PlaybackBackend::Remote => PlaybackBackend::Local,
            PlaybackBackend::Local => PlaybackBackend::Remote,
        };
        self.selected = 0;
        self.list_offset = 0;
        proof {
            lemma_top_can_refilter(self@);
        }
        self.apply_filter();
    }

    pub fn clear_local_queue(&mut self)
        requires
            old(self)@.can_refilter(),
        ensures
            final(self)@ == (AppView {
                local_queue: Seq::empty(),
                local_queue_pos: 0,
                local_current_song: None,
                local_fetching: false,
                local_position: 0,
                ..old(self)@
            }).refiltered(),
    {
        self.local_queue.clear();
        self.local_queue_pos = 0;
        self.local_current_song = None;
        self.local_fetching = false;
        self.local_position = 0;
        assert(songs_view(self.local_queue@) =~= Seq::<SongView>::empty());
        self.apply_filter();
    }

    pub fn push_local_queue(&mut self, song: Song)
        requires
            old(self)@.can_refilter(),
        ensures
            final(self)@ == (AppView { local_queue: old(self)@.local_queue.push(song@), ..old(self)@ }).refiltered(),
    {
        self.local_queue.push(song);
        proof {
            assert(songs_view(self.local_queue@) =~= old(self)@.local_queue.push(song@));
        }
        self.apply_filter();
    }

    pub fn set_artists(&mut self, artists: Vec<Artist>)
        requires
            (AppView { all_artists: artists_view(artists@), ..old(self)@ }).can_refilter(),
        ensures
            final(self)@ == (AppView {
                all_artists: artists_view(artists@),
                artists_loaded: true,
                ..old(self)@
            }).loading_updated().refiltered(),
    {
        let ghost target = AppView { all_artists: artists_view(artists@), artists_loaded: true, ..old(self)@ };
        self.all_artists = artists;
        self.artists_loaded = true;
        assert(self@ == target);
        self.update_loading_state();
        proof {
            lemma_loading_keeps_results(target);
        }
        self.apply_filter();
    }

    pub fn set_albums(&mut self, albums: Vec<Album>)
        requires
            (AppView { all_albums: albums_view(albums@), ..old(self)@ }).can_refilter(),
        ensures
            final(self)@ == (AppView {
                all_albums: albums_view(albums@),
                albums_loaded: true,
                ..old(self)@
            }).loading_updated().refiltered(),
    {
        let ghost target = AppView { all_albums: albums_view(albums@), albums_loaded: true, ..old(self)@ };
        self.all_albums = albums;
        self.albums_loaded = true;
        assert(self@ == target);
        self.update_loading_state();
        proof {
            lemma_loading_keeps_results(target);
        }
        self.apply_filter();
    }

    pub fn set_songs(&mut self, songs: Vec<Song>)
        requires
            (AppView { all_songs: songs_view(songs@), ..old(self)@ }).can_refilter(),
        ensures
            final(self)@ == (AppView {
                all_songs: songs_view(songs@),
                songs_loaded: true,
                ..old(self)@
            }).loading_updated().refiltered(),
    {
        let ghost target = AppView { all_songs: songs_view(songs@), songs_loaded: true, ..old(self)@ };
        self.all_songs = songs;
        self.songs_loaded = true;
        assert(self@ == target);
        self.update_loading_state();
        proof {
            lemma_loading_keeps_results(target);
        }
        self.apply_filter();
    }

    fn update_loading_state(&mut self)
        ensures
            final(self)@ == old(self)@.loading_updated(),
    {
        proof {
            reveal(AppView::loading_updated);
        }
        proof {
            reveal_strlit("artists");
            reveal_strlit("albums");
            reveal_strlit("songs");
            reveal_strlit("Loading ");
            reveal_strlit(", ");
            assert("artists"@ =~= word_artists());
            assert("albums"@ =~= word_albums());
            assert("songs"@ =~= word_songs());
            assert(", "@ =~= comma_separator());
        }
        let mut pending: Vec<String> = Vec::new();
        if !self.artists_loaded {
            pending.push(string_from("artists"));
        }
        if !self.albums_loaded {
            pending.push(string_from("albums"));
        }
        if !self.songs_loaded {
            pending.push(string_from("songs"));
        }
        assert(pending.deep_view() =~= pending_lists(self.artists_loaded, self.albums_loaded, self.songs_loaded));
        if pending.len() == 0 {
            self.loading = false;
            self.library_loaded = true;
            self.status_message = None;
        } else {
            let mut msg = string_from("Loading ");
            let joined = join_strings(&pending, ", ");
            push_str(&mut msg, joined.as_str());
            push_char(&mut msg, '\u{2026}');
            assert(msg@ =~= loading_text(pending.deep_view()));
            self.status_message = Some(msg);
        }
    }

    pub fn toggle_search_mode(&mut self)
        ensures
            final(self)@ == (AppView { search_mode: other_mode(old(self).search_mode), ..old(self)@ }).at_top().refiltered(),
    {
        self.search_mode = match self.search_mode {
            SearchMode::Exact => SearchMode::Fuzzy,
            SearchMode::Fuzzy => SearchMode::Exact,
        };
        self.selected = 0;
        self.list_offset = 0;
        proof {
            lemma_top_can_refilter(self@);
        }
        self.apply_filter();
    }

    /// The items that the current query selects from the library.
    fn search_results(&self) -> (items: Vec<LibraryItem>)
        ensures
            items_view(items@) == self@.search_results(),
    {
        proof {
            reveal(search_results_of);
        }
        let q = to_lowercase(self.search_query.as_str());
        let mode = self.search_mode;
        match self.search_scope {
            SearchScope::Artists => filter_artists(&self.all_artists, q.as_str(), mode),
            SearchScope::Albums => filter_albums(&self.all_albums, q.as_str(), mode),
            SearchScope::Songs => filter_songs(&self.all_songs, q.as_str(), mode),
            SearchScope::All => {
                let mut items = filter_artists(&self.all_artists, q.as_str(), mode);
                let mut albums = filter_albums(&self.all_albums, q.as_str(), mode);
                let mut songs = filter_songs(&self.all_songs, q.as_str(), mode);
                let ghost a = items@;
                let ghost b = albums@;
                let ghost c = songs@;
                items.append(&mut albums);
                items.append(&mut songs);
                assert(items_view(items@) =~= items_view(a) + items_view(b) + items_view(c));
                items
            },
        }
    }

    /// Recomputes the visible list from the query, scope and mode, keeps the
    /// selection in range and scrolls it into view.
    pub fn apply_filter(&mut self)
        requires
            old(self)@.can_refilter(),
        ensures
            final(self)@ == old(self)@.refiltered(),
    {
        proof {
            reveal(AppView::refiltered);
        }
        let items = self.search_results();
        let len = items.len();
        let sel = if self.selected >= len {
            if len > 0 {
                len - 1
            } else {
                0
            }
        } else {
            self.selected
        };
        self.filtered_items = items;
        self.selected = sel;
        self.clamp_offset(self.visible_rows);
    }

    pub fn move_down(&mut self, visible_rows: usize)
        requires
            old(self)@.down_ok(1, visible_rows),
        ensures
            final(self)@ == old(self)@.moved_down(1, visible_rows),
    {
        self.move_down_by(1, visible_rows);
    }

    pub fn move_up(&mut self, visible_rows: usize)
        requires
            old(self)@.up_ok(1, visible_rows),
        ensures
            final(self)@ == old(self)@.moved_up(1, visible_rows),
    {
        self.move_up_by(1, visible_rows);
    }

    pub fn move_down_by(&mut self, n: usize, visible_rows: usize)
        requires
            old(self)@.down_ok(n, visible_rows),
        ensures
            final(self)@ == old(self)@.moved_down(n, visible_rows),
    {
        proof {
            reveal(AppView::moved_down);
        }
        if self.filtered_items.is_empty() {
            return;
        }
        let t = self.selected + n;
        let last = self.filtered_items.len() - 1;
        self.selected = if t < last { t } else { last };
        self.clamp_offset(visible_rows);
    }

    pub fn move_up_by(&mut self, n: usize, visible_rows: usize)
        requires
            old(self)@.up_ok(n, visible_rows),
        ensures
            final(self)@ == old(self)@.moved_up(n, visible_rows),
    {
        proof {
            reveal(AppView::moved_up);
        }
        self.selected = if self.selected >= n { self.selected - n } else { 0 };
        self.clamp_offset(visible_rows);
    }

    fn half(&self) -> (h: usize)
        ensures
            h == self@.half_page(),
    {
        let h = self.visible_rows / 2;
        if h > 1 { h } else { 1 }
    }

    pub fn half_page_down(&mut self)
        requires
            old(self)@.down_ok(old(self)@.half_page(), old(self).visible_rows),
        ensures
            final(self)@ == old(self)@.moved_down(old(self)@.half_page(), old(self).visible_rows),
    {
        let half = self.half();
        self.move_down_by(half, self.visible_rows);
    }

    pub fn half_page_up(&mut self)
        requires
            old(self)@.up_ok(old(self)@.half_page(), old(self).visible_rows),
        ensures
            final(self)@ == old(self)@.moved_up(old(self)@.half_page(), old(self).visible_rows),
    {
        let half = self.half();
        self.move_up_by(half, self.visible_rows);
    }

    pub fn page_down(&mut self)
        requires
            old(self)@.down_ok(old(self).visible_rows, old(self).visible_rows),
        ensures
            final(self)@ == old(self)@.moved_down(old(self).visible_rows, old(self).visible_rows),
    {
        self.move_down_by(self.visible_rows, self.visible_rows);
    }

    pub fn page_up(&mut self)
        requires
            old(self)@.up_ok(old(self).visible_rows, old(self).visible_rows),
        ensures
            final(self)@ == old(self)@.moved_up(old(self).visible_rows, old(self).visible_rows),
    {
        self.move_up_by(self.visible_rows, self.visible_rows);
    }

    pub fn go_top(&mut self)
        ensures
            final(self)@ == old(self)@.at_top(),
    {
        self.selected = 0;
        self.list_offset = 0;
    }

    pub fn go_bottom(&mut self)
        requires
            old(self)@.bottom_ok(),
        ensures
            final(self)@ == old(self)@.select_row(old(self)@.bottom(), old(self).visible_rows),
    {
        let len = self.filtered_items.len();
        self.selected = if len > 0 { len - 1 } else { 0 };
        self.clamp_offset(self.visible_rows);
    }

    fn clamp_offset(&mut self, visible_rows: usize)
        requires
            clamp_ok(old(self).selected, old(self).list_offset, visible_rows),
        ensures
            final(self)@ == old(self)@.select_row(old(self).selected, visible_rows),
    {
        let off = if visible_rows == 0 {
            self.list_offset
        } else if self.selected < self.list_offset {
            self.selected
        } else if self.selected >= self.list_offset + visible_rows {
            self.selected + 1 - visible_rows
        } else {
            self.list_offset
        };
        self.list_offset = off;
    }

    pub fn selected_item(&self) -> (r: Option<&LibraryItem>)
        ensures
            self.selected < self.filtered_items@.len() ==> (r matches Some(i) && i@ == self@.filtered_items[self.selected as int]),
            self.selected >= self.filtered_items@.len() ==> r is None,
    {
        if self.selected < self.filtered_items.len() {
            Some(&self.filtered_items[self.selected])
        } else {
            None
        }
    }

    pub fn set_scope(&mut self, scope: SearchScope)
        ensures
            final(self)@ == (AppView { search_scope: scope, ..old(self)@ }).at_top().refiltered(),
    {
        self.search_scope = scope;
        self.selected = 0;
        self.list_offset = 0;
        proof {
            lemma_top_can_refilter(self@);
        }
        self.apply_filter();
    }

    pub fn next_scope(&mut self)
        ensures
            final(self)@ == (AppView { search_scope: next_scope_of(old(self).search_scope), ..old(self)@ }).at_top().refiltered(),
    {
        let s = match self.search_scope {
            SearchScope::All => SearchScope::Artists,
            SearchScope::Artists => SearchScope::Albums,
            SearchScope::Albums => SearchScope::Songs,
            SearchScope::Songs => SearchScope::All,
        };
        self.set_scope(s);
    }

    pub fn prev_scope(&mut self)
        ensures
            final(self)@ == (AppView { search_scope: prev_scope_of(old(self).search_scope), ..old(self)@ }).at_top().refiltered(),
    {
        let s = match self.search_scope {
            SearchScope::All => SearchScope::Songs,
            SearchScope::Artists => SearchScope::All,
            SearchScope::Albums => SearchScope::Artists,
            SearchScope::Songs => SearchScope::Albums,
        };
        self.set_scope(s);
    }

    pub fn push_search_char(&mut self, c: char)
        ensures
            final(self)@ == (AppView { search_query: old(self)@.search_query.push(c), ..old(self)@ }).at_top().refiltered(),
    {
        push_char(&mut self.search_query, c);
        self.selected = 0;
        self.list_offset = 0;
        proof {
            lemma_top_can_refilter(self@);
        }
        self.apply_filter();
    }

    pub fn pop_search_char(&mut self)
        ensures
            final(self)@ == (AppView {
                search_query: if old(self)@.search_query.len() > 0 {
                    old(self)@.search_query.drop_last()
                } else {
                    old(self)@.search_query
                },
                ..old(self)@
            }).at_top().refiltered(),
    {
        let _ = pop_char(&mut self.search_query);
        self.selected = 0;
        self.list_offset = 0;
        proof {
            lemma_top_can_refilter(self@);
        }
        self.apply_filter();
    }

    pub fn clear_search(&mut self)
        ensures
            final(self)@ == (AppView { search_query: Seq::empty(), ..old(self)@ }).at_top().refiltered(),
    {
        clear_string(&mut self.search_query);
        self.selected = 0;
        self.list_offset = 0;
        proof {
            lemma_top_can_refilter(self@);
        }
        self.apply_filter();
    }
}

impl App {
    /// Whether the selection and the window fit (`window_ok`); a caller
    /// checks this before the calls that recompute the list.
    pub fn window_fits(&self) -> (r: bool)
        ensures
            r == window_ok(self@),
    {
        self.selected < usize::MAX && self.list_offset <= usize::MAX - self.visible_rows && self.selected
            <= usize::MAX - self.visible_rows
    }
}

} // verus!
