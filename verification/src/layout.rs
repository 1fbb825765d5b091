//! The arithmetic and the texts of the screen: popups centred in an area,
//! which part of a list is shown, and the captions of the panes.
use vstd::prelude::*;
use crate::app::{App, AppView, InputMode, RepeatMode, SearchMode, SearchScope};
use crate::kodi::{duration_text, format_duration, CurrentItem, CurrentItemView, Song, SongView};
use crate::text::{
    chars_of, decimal, decimal_string, join, join_strings, push_char, push_decimal, push_str, string_from,
};

verus! {

/// A rectangle of terminal cells.
#[derive(Debug, Clone, Copy, PartialEq, Eq, Structural)]
pub struct Rect {
    pub x: u16,
    pub y: u16,
    pub width: u16,
    pub height: u16,
}

/// `a - b`, or 0 where that is negative.
pub open spec fn sat_sub(a: int, b: int) -> int {
    if a >= b {
        a - b
    } else {
        0
    }
}

pub open spec fn min_int(a: int, b: int) -> int {
    if a <= b {
        a
    } else {
        b
    }
}

pub open spec fn max_int(a: int, b: int) -> int {
    if a >= b {
        a
    } else {
        b
    }
}

/// A rectangle of the given size centred in `area`, cut down to the area.
pub open spec fn center_rect_spec(width: u16, height: u16, area: Rect) -> Rect {
    Rect {
        x: (area.x + sat_sub(area.width as int, width as int) / 2) as u16,
        y: (area.y + sat_sub(area.height as int, height as int) / 2) as u16,
        width: min_int(width as int, area.width as int) as u16,
        height: min_int(height as int, area.height as int) as u16,
    }
}

/// The centred position fits in a cell coordinate.
pub open spec fn center_fits(width: u16, height: u16, area: Rect) -> bool {
    &&& area.x + sat_sub(area.width as int, width as int) / 2 <= u16::MAX
    &&& area.y + sat_sub(area.height as int, height as int) / 2 <= u16::MAX
}

/// `r` lies within `area`.
pub open spec fn within(r: Rect, area: Rect) -> bool {
    &&& area.x <= r.x
    &&& r.x + r.width <= area.x + area.width
    &&& area.y <= r.y
    &&& r.y + r.height <= area.y + area.height
}

/// A popup of `width` by `height` centred in `area`; it always lies within
/// the area.
pub fn center_rect(width: u16, height: u16, area: Rect) -> (r: Rect)
    requires
        center_fits(width, height, area),
    ensures
        r == center_rect_spec(width, height, area),
        within(r, area),
{
    let x = area.x + area.width.saturating_sub(width) / 2;
    let y = area.y + area.height.saturating_sub(height) / 2;
    Rect {
        x,
        y,
        width: if width <= area.width { width } else { area.width },
        height: if height <= area.height { height } else { area.height },
    }
}

/// The width of the track information popup: three quarters of the area,
/// at least 60 cells, at most the area.
pub open spec fn info_popup_width_spec(area_width: u16) -> u16 {
    min_int(max_int(area_width * 3 / 4, 60), area_width as int) as u16
}

pub fn info_popup_width(area_width: u16) -> (w: u16)
    ensures
        w == info_popup_width_spec(area_width),
        w <= area_width,
{
    let q: u16 = ((area_width as u32) * 3 / 4) as u16;
    let w = if q >= 60 { q } else { 60 };
    if w <= area_width { w } else { area_width }
}

/// The height of a popup of `lines` lines and a border, at most the area.
pub open spec fn popup_height_spec(lines: usize, area_height: u16) -> u16 {
    min_int(lines + 2, area_height as int) as u16
}

pub fn popup_height(lines: usize, area_height: u16) -> (h: u16)
    ensures
        h == popup_height_spec(lines, area_height),
        h <= area_height,
{
    if lines < area_height as usize && lines + 2 <= area_height as usize {
        (lines + 2) as u16
    } else {
        area_height
    }
}

// ------------------------------------------------------------------
// Scrolling
// ------------------------------------------------------------------

/// The first queue row shown: the current song in the middle of the pane
/// where the queue allows it, else the end of the queue at the bottom.
pub open spec fn queue_offset_spec(current: usize, visible: usize, len: usize) -> int {
    min_int(sat_sub(current as int, (visible / 2) as int), sat_sub(len as int, visible as int))
}

pub fn queue_offset(current: usize, visible: usize, len: usize) -> (r: usize)
    ensures
        r == queue_offset_spec(current, visible, len),
        0 < visible && current < len ==> r <= current < r + visible,
{
    let a = current.saturating_sub(visible / 2);
    let b = len.saturating_sub(visible);
    if a <= b { a } else { b }
}

/// The end of the rows shown from `offset`: `rows` further, or the end of
/// the list.
pub fn visible_end(offset: usize, rows: usize, len: usize) -> (r: usize)
    requires
        offset + rows <= usize::MAX,
    ensures
        r == min_int(offset + rows, len as int),
{
    if offset + rows <= len { offset + rows } else { len }
}

/// How far row `i` is from row `current`.
pub fn row_distance(i: usize, current: usize) -> (d: usize)
    ensures
        d == (if i >= current { i - current } else { current - i }),
{
    if i >= current { i - current } else { current - i }
}

/// `digits` right-aligned in three cells.
pub open spec fn pad3(digits: Seq<char>) -> Seq<char> {
    if digits.len() >= 3 {
        digits
    } else {
        Seq::new((3 - digits.len()) as nat, |i: int| ' ') + digits
    }
}

/// The number in front of a row: right-aligned in three cells, then a
/// space.
pub open spec fn row_number_text(n: nat) -> Seq<char> {
    pad3(decimal(n)) + " "@
}

proof fn lemma_decimal_len(n: nat)
    ensures
        decimal(n).len() >= 1,
        n < 10 ==> decimal(n).len() == 1,
        10 <= n < 100 ==> decimal(n).len() == 2,
        n >= 100 ==> decimal(n).len() >= 3,
    decreases n,
{
    if n >= 10 {
        lemma_decimal_len(n / 10);
    }
}

/// Appends `n` right-aligned in three cells.
fn push_padded3(s: &mut String, n: u64)
    ensures
        final(s)@ == old(s)@ + pad3(decimal(n as nat)),
{
    proof {
        lemma_decimal_len(n as nat);
    }
    let ghost start = s@;
    let ghost d = decimal(n as nat);
    if n < 10 {
        push_char(s, ' ');
        push_char(s, ' ');
        assert(s@ =~= start + Seq::new((3 - d.len()) as nat, |i: int| ' '));
    } else if n < 100 {
        push_char(s, ' ');
        assert(s@ =~= start + Seq::new((3 - d.len()) as nat, |i: int| ' '));
    }
    let ghost pad = s@;
    push_decimal(s, n);
    assert(s@ =~= start + pad3(d));
}

pub fn row_number(n: u64) -> (r: String)
    ensures
        r@ == row_number_text(n as nat),
{
    let mut r = String::new();
    push_padded3(&mut r, n);
    push_char(&mut r, ' ');
    proof {
        reveal_strlit(" ");
        assert(r@ =~= row_number_text(n as nat));
    }
    r
}

// ------------------------------------------------------------------
// Queue rows
// ------------------------------------------------------------------

/// A queue label cut to fit `max_label` columns, one per character: a
/// label of at most `max_label` characters is kept whole; a longer one
/// keeps its first `max_label - 1` characters (none when `max_label` is 0)
/// and ends in an ellipsis.
pub open spec fn truncated_label(s: Seq<char>, max_label: nat) -> Seq<char> {
    if s.len() > max_label {
        s.take(sat_sub(max_label as int, 1)) + seq!['…']
    } else {
        s
    }
}

/// A queue label cut to fit `max_label` columns.
pub fn truncate_label(label: &str, max_label: usize) -> (r: String)
    ensures
        r@ == truncated_label(label@, max_label as nat),
{
    let v = chars_of(label);
    if v.len() <= max_label {
        return string_from(label);
    }
    let c: usize = if max_label >= 1 { max_label - 1 } else { 0 };
    let mut r = String::new();
    let mut i: usize = 0;
    while i < c
        invariant
            c < v@.len(),
            i <= c,
            r@ == v@.take(i as int),
        decreases c - i,
    {
        push_char(&mut r, v[i]);
        assert(r@ =~= v@.take(i + 1));
        i = i + 1;
    }
    push_char(&mut r, '…');
    r
}

/// The number in front of a queue row: the distance from the current song
/// while one plays, else the row's place counted from 1.
pub open spec fn queue_row_number_text(i: nat, current: nat, has_current: bool) -> Seq<char> {
    if has_current {
        row_number_text(if i >= current { (i - current) as nat } else { (current - i) as nat })
    } else {
        row_number_text(i + 1)
    }
}

pub fn queue_row_number(i: usize, current: usize, has_current: bool) -> (r: String)
    requires
        i + 1 <= u64::MAX,
    ensures
        r@ == queue_row_number_text(i as nat, current as nat, has_current),
{
    if has_current {
        row_number(row_distance(i, current) as u64)
    } else {
        row_number(i as u64 + 1)
    }
}

/// The queue pane's title: its bare name while the queue is empty, else the
/// current song's place (0 with none) and the queue's length.
pub open spec fn queue_title_text(len: nat, has_current: bool, current: nat) -> Seq<char> {
    if len == 0 {
        " Queue "@
    } else {
        " Queue "@ + decimal(if has_current { current + 1 } else { 0 }) + "/"@ + decimal(len) + " "@
    }
}

pub fn queue_title(len: usize, has_current: bool, current: usize) -> (r: String)
    requires
        current + 1 <= u64::MAX,
    ensures
        r@ == queue_title_text(len as nat, has_current, current as nat),
{
    let mut r = string_from(" Queue ");
    if len > 0 {
        let pos: u64 = if has_current { current as u64 + 1 } else { 0 };
        push_decimal(&mut r, pos);
        push_str(&mut r, "/");
        push_decimal(&mut r, len as u64);
        push_str(&mut r, " ");
    }
    r
}

// ------------------------------------------------------------------
// Captions
// ------------------------------------------------------------------

/// The library pane with nothing to list.
pub open spec fn empty_library_text(loading: bool, query_empty: bool) -> Seq<char> {
    if loading {
        "Loading…"@
    } else if query_empty {
        "No items found in library."@
    } else {
        "No matches."@
    }
}

pub fn empty_library_message(loading: bool, query: &str) -> (r: &'static str)
    ensures
        r@ == empty_library_text(loading, query@.len() == 0),
{
    if loading {
        "Loading…"
    } else if query.is_empty() {
        "No items found in library."
    } else {
        "No matches."
    }
}

/// The now-playing bar with nothing playing on Kodi.
pub open spec fn idle_text(loading: bool) -> Seq<char> {
    if loading {
        "Loading library…"@
    } else {
        "Nothing playing. Press / to search, Enter to play."@
    }
}

pub fn idle_message(loading: bool) -> (r: &'static str)
    ensures
        r@ == idle_text(loading),
{
    if loading {
        "Loading library…"
    } else {
        "Nothing playing. Press / to search, Enter to play."
    }
}

/// The repeat mark in the now-playing title for the local queue.
pub open spec fn local_repeat_text(mode: RepeatMode) -> Seq<char> {
    match mode {
        RepeatMode::Off => ""@,
        RepeatMode::Track => " ↻1"@,
        RepeatMode::Queue => " ↻"@,
    }
}

pub fn local_repeat_mark(mode: RepeatMode) -> (r: &'static str)
    ensures
        r@ == local_repeat_text(mode),
{
    match mode {
        RepeatMode::Off => "",
        RepeatMode::Track => " ↻1",
        RepeatMode::Queue => " ↻",
    }
}

/// The repeat mark in the now-playing title for Kodi's repeat setting.
pub open spec fn remote_repeat_text(setting: Seq<char>) -> Seq<char> {
    if setting == "one"@ {
        " ↻1"@
    } else if setting == "all"@ {
        " ↻"@
    } else {
        ""@
    }
}

pub fn remote_repeat_mark(setting: &str) -> (r: &'static str)
    ensures
        r@ == remote_repeat_text(setting@),
{
    let c = chars_of(setting);
    if crate::text::equals_lit(&c, "one") {
        " ↻1"
    } else if crate::text::equals_lit(&c, "all") {
        " ↻"
    } else {
        ""
    }
}

/// The position, the duration and the volume under the progress gauge:
/// `pos / dur`, three spaces, the speaker (crossed out when `silent`) and
/// the volume right-aligned in three cells with a percent sign.
pub open spec fn progress_text_spec(position: u32, duration: u32, silent: bool, volume: u32) -> Seq<char> {
    duration_text(position as nat) + " / "@ + duration_text(duration as nat) + "   "@ + (if silent {
        "🔇"@
    } else {
        "🔊"@
    }) + pad3(decimal(volume as nat)) + "%"@
}

pub fn progress_text(position: u32, duration: u32, silent: bool, volume: u32) -> (r: String)
    ensures
        r@ == progress_text_spec(position, duration, silent, volume),
{
    let mut r = crate::kodi::format_duration(position);
    push_str(&mut r, " / ");
    let d = crate::kodi::format_duration(duration);
    push_str(&mut r, d.as_str());
    push_str(&mut r, "   ");
    push_str(&mut r, if silent { "🔇" } else { "🔊" });
    push_padded3(&mut r, volume as u64);
    push_str(&mut r, "%");
    r
}

/// The label of a scope tab.
pub open spec fn scope_tab_text(scope: SearchScope, artist_tag: Seq<char>, album_tag: Seq<char>, song_tag: Seq<char>) -> Seq<char> {
    match scope {
        SearchScope::All => "All [F1]"@,
        SearchScope::Artists => artist_tag + " Artists [F2]"@,
        SearchScope::Albums => album_tag + " Albums [F3]"@,
        SearchScope::Songs => song_tag + " Songs [F4]"@,
    }
}

pub fn scope_tab(scope: SearchScope, artist_tag: &str, album_tag: &str, song_tag: &str) -> (r: String)
    ensures
        r@ == scope_tab_text(scope, artist_tag@, album_tag@, song_tag@),
{
    match scope {
        SearchScope::All => string_from("All [F1]"),
        SearchScope::Artists => {
            let mut r = string_from(artist_tag);
            push_str(&mut r, " Artists [F2]");
            r
        },
        SearchScope::Albums => {
            let mut r = string_from(album_tag);
            push_str(&mut r, " Albums [F3]");
            r
        },
        SearchScope::Songs => {
            let mut r = string_from(song_tag);
            push_str(&mut r, " Songs [F4]");
            r
        },
    }
}

/// The title of the search box: the scope and the match mode.
pub open spec fn search_title_text(scope: SearchScope, mode: SearchMode) -> Seq<char> {
    " Search ("@ + match scope {
        SearchScope::All => "all"@,
        SearchScope::Artists => "artists"@,
        SearchScope::Albums => "albums"@,
        SearchScope::Songs => "songs"@,
    } + ", "@ + match mode {
        SearchMode::Exact => "exact"@,
        SearchMode::Fuzzy => "fuzzy"@,
    } + ") "@
}

pub fn search_title(scope: SearchScope, mode: SearchMode) -> (r: String)
    ensures
        r@ == search_title_text(scope, mode),
{
    let mut r = string_from(" Search (");
    push_str(
        &mut r,
        match scope {
            SearchScope::All => "all",
            SearchScope::Artists => "artists",
            SearchScope::Albums => "albums",
            SearchScope::Songs => "songs",
        },
    );
    push_str(&mut r, ", ");
    push_str(
        &mut r,
        match mode {
            SearchMode::Exact => "exact",
            SearchMode::Fuzzy => "fuzzy",
        },
    );
    push_str(&mut r, ") ");
    r
}

/// The line of the status bar outside search: the message, else the count
/// of listed items; a pending count comes first in brackets.
pub open spec fn status_line_text(message: Option<Seq<char>>, items: nat, pending: Seq<char>) -> Seq<char> {
    let base = match message {
        Some(m) => m,
        None => decimal(items) + " items"@,
    };
    if pending.len() == 0 {
        base
    } else {
        "["@ + pending + "] "@ + base
    }
}

pub fn status_line(message: &Option<String>, items: usize, pending: &str) -> (r: String)
    ensures
        r@ == status_line_text(crate::config::opt_text(*message), items as nat, pending@),
{
    let mut r = if pending.is_empty() {
        String::new()
    } else {
        let mut p = string_from("[");
        push_str(&mut p, pending);
        push_str(&mut p, "] ");
        p
    };
    match message {
        Some(m) => push_str(&mut r, m.as_str()),
        None => {
            push_decimal(&mut r, items as u64);
            push_str(&mut r, " items");
        },
    }
    proof {
        reveal_strlit("");
    }
    r
}

/// The hint shown beside the search box while searching.
pub open spec fn search_hint_text() -> Seq<char> {
    " ESC: cancel  ENTER: play  Alt+ENTER: queue  TAB: fuzzy/exact  F1-F4: scope "@
}

/// The hint shown beside the status line outside search.
pub open spec fn normal_hint_text() -> Seq<char> {
    " /: search  j/k: nav  gg/G: top/bot  ENTER: play  Alt+ENTER: queue  SPACE: pause  n/p: skip  r: repeat  i: info  +/-: vol  q: quit "@
}

/// The title, the content and the hint of the bar at the bottom, by input
/// mode: the search with its scope and mode and a cursor after the query;
/// the status line; or the command being typed.
pub open spec fn bottom_bar_text(v: AppView) -> (Seq<char>, Seq<char>, Seq<char>) {
    match v.input_mode {
        InputMode::Search => (search_title_text(v.search_scope, v.search_mode), v.search_query + "_"@, search_hint_text()),
        InputMode::Normal => (
            " koditerm "@,
            status_line_text(v.status_message, v.filtered_items.len(), v.pending_count),
            normal_hint_text(),
        ),
        InputMode::Command => (" Command "@, v.search_query, Seq::empty()),
    }
}

pub fn bottom_bar(app: &App) -> (r: (String, String, String))
    ensures
        (r.0@, r.1@, r.2@) == bottom_bar_text(app@),
{
    match app.input_mode {
        InputMode::Search => {
            let mut content = string_from(app.search_query.as_str());
            push_str(&mut content, "_");
            (
                search_title(app.search_scope, app.search_mode),
                content,
                string_from(" ESC: cancel  ENTER: play  Alt+ENTER: queue  TAB: fuzzy/exact  F1-F4: scope "),
            )
        },
        InputMode::Normal => (
            string_from(" koditerm "),
            status_line(&app.status_message, app.filtered_items.len(), app.pending_count.as_str()),
            string_from(
                " /: search  j/k: nav  gg/G: top/bot  ENTER: play  Alt+ENTER: queue  SPACE: pause  n/p: skip  r: repeat  i: info  +/-: vol  q: quit ",
            ),
        ),
        InputMode::Command => {
            proof {
                reveal_strlit("");
            }
            (string_from(" Command "), string_from(app.search_query.as_str()), string_from(""))
        },
    }
}

/// The rows of the track information popup for a local song: its artists
/// joined by commas, its album, and its track number and duration where
/// known, each with its caption padded to thirteen cells.
pub open spec fn song_info_rows_spec(s: SongView) -> Seq<(Seq<char>, Seq<char>)> {
    let base = seq![("Artist       "@, join(s.artist, ", "@)), ("Album        "@, s.album)];
    let with_track = match s.track {
        Some(t) => base.push(("Track        "@, decimal(t as nat))),
        None => base,
    };
    match s.duration {
        Some(d) => with_track.push(("Duration     "@, duration_text(d as nat))),
        None => with_track,
    }
}

pub open spec fn rows_view(rows: Seq<(String, String)>) -> Seq<(Seq<char>, Seq<char>)> {
    rows.map_values(|r: (String, String)| (r.0@, r.1@))
}

pub fn song_info_rows(song: &Song) -> (r: Vec<(String, String)>)
    ensures
        rows_view(r@) == song_info_rows_spec(song@),
{
    let mut r: Vec<(String, String)> = Vec::new();
    r.push((string_from("Artist       "), join_strings(&song.artist, ", ")));
    r.push((string_from("Album        "), string_from(song.album.as_str())));
    let ghost base = rows_view(r@);
    match song.track {
        Some(t) => r.push((string_from("Track        "), decimal_string(t as u64))),
        None => {},
    }
    let ghost mid = rows_view(r@);
    match song.duration {
        Some(d) => r.push((string_from("Duration     "), format_duration(d))),
        None => {},
    }
    proof {
        assert(base =~= seq![("Artist       "@, join(song@.artist, ", "@)), ("Album        "@, song@.album)]);
        assert(mid =~= match song@.track {
            Some(t) => base.push(("Track        "@, decimal(t as nat))),
            None => base,
        });
        assert(rows_view(r@) =~= song_info_rows_spec(song@));
    }
    r
}

/// The rows of the track information popup for what Kodi plays: artist
/// and album where they are not empty, then the duration, each caption
/// padded to thirteen cells.
pub open spec fn item_info_rows_spec(item: CurrentItemView) -> Seq<(Seq<char>, Seq<char>)> {
    let a: Seq<(Seq<char>, Seq<char>)> = if item.artist.len() > 0 {
        seq![("Artist       "@, item.artist)]
    } else {
        Seq::empty()
    };
    let b = if item.album.len() > 0 {
        a.push(("Album        "@, item.album))
    } else {
        a
    };
    b.push(("Duration     "@, duration_text(item.duration as nat)))
}

pub fn item_info_rows(item: &CurrentItem) -> (r: Vec<(String, String)>)
    ensures
        rows_view(r@) == item_info_rows_spec(item@),
{
    let mut r: Vec<(String, String)> = Vec::new();
    if !item.artist.as_str().is_empty() {
        r.push((string_from("Artist       "), string_from(item.artist.as_str())));
    }
    let ghost a = rows_view(r@);
    if !item.album.as_str().is_empty() {
        r.push((string_from("Album        "), string_from(item.album.as_str())));
    }
    let ghost b = rows_view(r@);
    r.push((string_from("Duration     "), format_duration(item.duration)));
    proof {
        assert(a =~= (if item@.artist.len() > 0 {
            seq![("Artist       "@, item@.artist)]
        } else {
            Seq::<(Seq<char>, Seq<char>)>::empty()
        }));
        assert(rows_view(r@) =~= item_info_rows_spec(item@));
    }
    r
}

} // verus!
