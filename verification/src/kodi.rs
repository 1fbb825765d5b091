//! The Kodi library and player records, and duration formatting.
use vstd::prelude::*;
use crate::text::{decimal, decimal2, push_char, push_decimal, push_decimal2};

verus! {

#[derive(Debug)]
pub struct Artist {
    pub artistid: u32,
    pub label: String,
}

#[derive(Debug)]
pub struct Album {
    pub albumid: u32,
    pub label: String,
    pub artist: Vec<String>,
    pub year: Option<u32>,
}

#[derive(Debug)]
pub struct Song {
    pub songid: u32,
    pub label: String,
    pub artist: Vec<String>,
    pub album: String,
    pub track: Option<u32>,
    pub duration: Option<u32>,
}

#[derive(Debug)]
pub struct PlayerStatus {
    pub player_id: Option<i64>,
    pub playing: bool,
    pub current_item: Option<CurrentItem>,
    pub position: u32,
    pub duration: u32,
    pub speed: i64,
    pub volume: u32,
    pub muted: bool,
}

#[derive(Debug)]
pub struct CurrentItem {
    pub title: String,
    pub artist: String,
    pub album: String,
    pub duration: u32,
}

pub struct ArtistView {
    pub artistid: u32,
    pub label: Seq<char>,
}

pub struct AlbumView {
    pub albumid: u32,
    pub label: Seq<char>,
    pub artist: Seq<Seq<char>>,
    pub year: Option<u32>,
}

pub struct SongView {
    pub songid: u32,
    pub label: Seq<char>,
    pub artist: Seq<Seq<char>>,
    pub album: Seq<char>,
    pub track: Option<u32>,
    pub duration: Option<u32>,
}

pub struct CurrentItemView {
    pub title: Seq<char>,
    pub artist: Seq<char>,
    pub album: Seq<char>,
    pub duration: u32,
}

pub struct PlayerStatusView {
    pub player_id: Option<i64>,
    pub playing: bool,
    pub current_item: Option<CurrentItemView>,
    pub position: u32,
    pub duration: u32,
    pub speed: i64,
    pub volume: u32,
    pub muted: bool,
}

impl View for Artist {
    type V = ArtistView;

    open spec fn view(&self) -> ArtistView {
        ArtistView { artistid: self.artistid, label: self.label@ }
    }
}

impl View for Album {
    type V = AlbumView;

    open spec fn view(&self) -> AlbumView {
        AlbumView {
            albumid: self.albumid,
            label: self.label@,
            artist: self.artist.deep_view(),
            year: self.year,
        }
    }
}

impl View for Song {
    type V = SongView;

    open spec fn view(&self) -> SongView {
        SongView {
            songid: self.songid,
            label: self.label@,
            artist: self.artist.deep_view(),
            album: self.album@,
            track: self.track,
            duration: self.duration,
        }
    }
}

impl View for CurrentItem {
    type V = CurrentItemView;

    open spec fn view(&self) -> CurrentItemView {
        CurrentItemView {
            title: self.title@,
            artist: self.artist@,
            album: self.album@,
            duration: self.duration,
        }
    }
}

pub open spec fn current_item_view(c: Option<CurrentItem>) -> Option<CurrentItemView> {
    match c {
        Some(i) => Some(i@),
        None => None,
    }
}

impl View for PlayerStatus {
    type V = PlayerStatusView;

    open spec fn view(&self) -> PlayerStatusView {
        PlayerStatusView {
            player_id: self.player_id,
            playing: self.playing,
            current_item: current_item_view(self.current_item),
            position: self.position,
            duration: self.duration,
            speed: self.speed,
            volume: self.volume,
            muted: self.muted,
        }
    }
}

/// A copy of a list of strings, element for element.
pub fn copy_strings(v: &Vec<String>) -> (r: Vec<String>)
    ensures
        r.deep_view() == v.deep_view(),
{
    let r = v.clone();
    assert forall|i: int| 0 <= i < r.len() implies r@[i] == v@[i] by {
        assert(cloned::<String>(v[i], r[i]));
    }
    assert(r.deep_view() =~= v.deep_view());
    r
}

impl Clone for Artist {
    fn clone(&self) -> (r: Self)
        ensures
            r@ == self@,
    {
        Artist { artistid: self.artistid, label: self.label.clone() }
    }
}

impl Clone for Album {
    fn clone(&self) -> (r: Self)
        ensures
            r@ == self@,
    {
        Album {
            albumid: self.albumid,
            label: self.label.clone(),
            artist: copy_strings(&self.artist),
            year: self.year,
        }
    }
}

impl Clone for Song {
    fn clone(&self) -> (r: Self)
        ensures
            r@ == self@,
    {
        Song {
            songid: self.songid,
            label: self.label.clone(),
            artist: copy_strings(&self.artist),
            album: self.album.clone(),
            track: self.track,
            duration: self.duration,
        }
    }
}

impl Clone for CurrentItem {
    fn clone(&self) -> (r: Self)
        ensures
            r@ == self@,
    {
        CurrentItem {
            title: self.title.clone(),
            artist: self.artist.clone(),
            album: self.album.clone(),
            duration: self.duration,
        }
    }
}

impl Clone for PlayerStatus {
    fn clone(&self) -> (r: Self)
        ensures
            r@ == self@,
    {
        let current_item = match &self.current_item {
            Some(c) => Some(c.clone()),
            None => None,
        };
        PlayerStatus {
            player_id: self.player_id,
            playing: self.playing,
            current_item,
            position: self.position,
            duration: self.duration,
            speed: self.speed,
            volume: self.volume,
            muted: self.muted,
        }
    }
}

/// The status shown before Kodi has been asked: nothing playing, volume 100.
pub open spec fn idle_status() -> PlayerStatusView {
    PlayerStatusView {
        player_id: None,
        playing: false,
        current_item: None,
        position: 0,
        duration: 0,
        speed: 0,
        volume: 100,
        muted: false,
    }
}

impl Default for PlayerStatus {
    fn default() -> (s: Self)
        ensures
            s@ == idle_status(),
    {
        PlayerStatus {
            player_id: None,
            playing: false,
            current_item: None,
            position: 0,
            duration: 0,
            speed: 0,
            volume: 100,
            muted: false,
        }
    }
}

/// `secs` as `m:ss`, or as `h:mm:ss` from one hour on.
pub open spec fn duration_text(secs: nat) -> Seq<char> {
    let h = secs / 3600;
    let m = (secs % 3600) / 60;
    let s = secs % 60;
    if h > 0 {
        decimal(h) + seq![':'] + decimal2(m) + seq![':'] + decimal2(s)
    } else {
        decimal(m) + seq![':'] + decimal2(s)
    }
}

pub fn format_duration(secs: u32) -> (r: String)
    ensures
        r@ == duration_text(secs as nat),
{
    let h = secs / 3600;
    let m = (secs % 3600) / 60;
    let s = secs % 60;
    let mut r = String::new();
    if h > 0 {
        push_decimal(&mut r, h as u64);
        push_char(&mut r, ':');
        push_decimal2(&mut r, m as u64);
    } else {
        push_decimal(&mut r, m as u64);
    }
    push_char(&mut r, ':');
    push_decimal2(&mut r, s as u64);
    r
}

/// The hours, minutes and seconds fields of a Kodi time object, each as
/// read by `as_u64` (absent or not an unsigned integer: `None`).
pub struct ClockTime {
    pub hours: Option<u64>,
    pub minutes: Option<u64>,
    pub seconds: Option<u64>,
}

pub open spec fn or_zero(v: Option<u64>) -> nat {
    match v {
        Some(x) => x as nat,
        None => 0,
    }
}

/// The total seconds of a clock time, before narrowing.
pub open spec fn clock_total(t: ClockTime) -> nat {
    or_zero(t.hours) * 3600 + or_zero(t.minutes) * 60 + or_zero(t.seconds)
}

/// The total fits the 64-bit arithmetic that computes it.
pub open spec fn clock_fits(t: ClockTime) -> bool {
    clock_total(t) <= u64::MAX
}

impl ClockTime {
    /// Whether the total fits (`clock_fits`).
    pub fn fits(&self) -> (r: bool)
        ensures
            r == clock_fits(*self),
    {
        let h: u64 = match self.hours {
            Some(x) => x,
            None => 0,
        };
        let m: u64 = match self.minutes {
            Some(x) => x,
            None => 0,
        };
        let s: u64 = match self.seconds {
            Some(x) => x,
            None => 0,
        };
        if h > u64::MAX / 3600 {
            return false;
        }
        let hs = h * 3600;
        if m > (u64::MAX - hs) / 60 {
            assert(m * 60 > u64::MAX - hs) by (nonlinear_arith)
                requires
                    m > (u64::MAX - hs) / 60,
                    hs <= u64::MAX,
            ;
            return false;
        }
        assert(m * 60 <= u64::MAX - hs) by (nonlinear_arith)
            requires
                m <= (u64::MAX - hs) / 60,
                hs <= u64::MAX,
        ;
        let ms = m * 60;
        s <= u64::MAX - hs - ms
    }
}

/// Seconds of a clock time, narrowed to 32 bits as `as u32` does.
pub fn time_to_seconds(t: &ClockTime) -> (r: u32)
    requires
        clock_fits(*t),
    ensures
        r == (clock_total(*t) as u64) as u32,
{
    let h: u64 = match t.hours {
        Some(x) => x,
        None => 0,
    };
    let m: u64 = match t.minutes {
        Some(x) => x,
        None => 0,
    };
    let s: u64 = match t.seconds {
        Some(x) => x,
        None => 0,
    };
    assert(h * 3600 + m * 60 + s <= u64::MAX);
    assert(h * 3600 <= u64::MAX) by (nonlinear_arith)
        requires
            h * 3600 + m * 60 + s <= u64::MAX,
    ;
    assert(m * 60 <= u64::MAX) by (nonlinear_arith)
        requires
            h * 3600 + m * 60 + s <= u64::MAX,
            h >= 0,
    ;
    let total: u64 = h * 3600 + m * 60 + s;
    total as u32
}

} // verus!
