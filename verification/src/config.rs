//! Configuration: Kodi systems, colour names, the theme, and choosing the
//! system to connect to.
use vstd::prelude::*;
use crate::text::{
    boundary, boundary_index, byte_len, char_utf8_len, chars_of, decimal, equals_lit, join, join_strings,
    lemma_boundary_unique, lemma_byte_len_step, lemma_byte_len_strict, lowercase, push_char, push_decimal,
    push_str, same_chars, string_from, to_lowercase, trim, trim_chars,
};

verus! {

/// One Kodi installation to connect to.
#[derive(Debug)]
pub struct KodiSystem {
    pub host: String,
    pub port: u16,
    pub username: String,
    pub password: String,
    pub default: bool,
}

pub struct KodiSystemView {
    pub host: Seq<char>,
    pub port: u16,
    pub username: Seq<char>,
    pub password: Seq<char>,
    pub default: bool,
}

impl View for KodiSystem {
    type V = KodiSystemView;

    open spec fn view(&self) -> KodiSystemView {
        KodiSystemView {
            host: self.host@,
            port: self.port,
            username: self.username@,
            password: self.password@,
            default: self.default,
        }
    }
}

impl Clone for KodiSystem {
    fn clone(&self) -> (r: Self)
        ensures
            r@ == self@,
    {
        KodiSystem {
            host: self.host.clone(),
            port: self.port,
            username: self.username.clone(),
            password: self.password.clone(),
            default: self.default,
        }
    }
}

/// `http://<host>:<port>`.
pub open spec fn base_url_text(s: KodiSystemView) -> Seq<char> {
    seq!['h', 't', 't', 'p', ':', '/', '/'] + s.host + seq![':'] + decimal(s.port as nat)
}

impl KodiSystem {
    pub fn base_url(&self) -> (r: String)
        ensures
            r@ == base_url_text(self@),
    {
        proof {
            reveal_strlit("http://");
        }
        let mut r = string_from("http://");
        push_str(&mut r, self.host.as_str());
        push_char(&mut r, ':');
        push_decimal(&mut r, self.port as u64);
        r
    }
}

/// A terminal colour: the named ANSI colours, the terminal's default
/// (`Reset`), or a 24-bit colour.
#[derive(Debug, Clone, Copy, PartialEq, Eq, Structural)]
pub enum Color {
    Reset,
    Black,
    Red,
    Green,
    Yellow,
    Blue,
    Magenta,
    Cyan,
    Gray,
    DarkGray,
    LightRed,
    LightGreen,
    LightYellow,
    LightBlue,
    LightMagenta,
    LightCyan,
    White,
    Rgb(u8, u8, u8),
}

/// Resolved colours ready for use in the UI.
#[derive(Debug)]
pub struct Theme {
    /// Subdued text: relative line numbers, metadata, subtitles, file paths.
    pub dim: Color,
    /// Primary accent: titles, active scope tab, progress gauge (remote), playing item.
    pub accent: Color,
    /// Secondary highlight: artist names, local gauge, queue count title.
    pub highlight: Color,
    /// Primary body text: unselected item labels in the library list.
    pub text: Color,
    /// Foreground of the selected row (text on top of selected_bg).
    pub selected_fg: Color,
    /// Background of the selected row.
    pub selected_bg: Color,
    /// Background of the artist type badge, or None for no styling.
    pub tag_artist: Option<Color>,
    /// Background of the album type badge, or None for no styling.
    pub tag_album: Option<Color>,
    /// Background of the song type badge, or None for no styling.
    pub tag_song: Option<Color>,
    /// Label text inside the artist badge.
    pub tag_artist_label: String,
    /// Label text inside the album badge.
    pub tag_album_label: String,
    /// Label text inside the song badge.
    pub tag_song_label: String,
}

pub struct ThemeView {
    pub dim: Color,
    pub accent: Color,
    pub highlight: Color,
    pub text: Color,
    pub selected_fg: Color,
    pub selected_bg: Color,
    pub tag_artist: Option<Color>,
    pub tag_album: Option<Color>,
    pub tag_song: Option<Color>,
    pub tag_artist_label: Seq<char>,
    pub tag_album_label: Seq<char>,
    pub tag_song_label: Seq<char>,
}

impl View for Theme {
    type V = ThemeView;

    open spec fn view(&self) -> ThemeView {
        ThemeView {
            dim: self.dim,
            accent: self.accent,
            highlight: self.highlight,
            text: self.text,
            selected_fg: self.selected_fg,
            selected_bg: self.selected_bg,
            tag_artist: self.tag_artist,
            tag_album: self.tag_album,
            tag_song: self.tag_song,
            tag_artist_label: self.tag_artist_label@,
            tag_album_label: self.tag_album_label@,
            tag_song_label: self.tag_song_label@,
        }
    }
}

impl Clone for Theme {
    fn clone(&self) -> (r: Self)
        ensures
            r@ == self@,
    {
        Theme {
            dim: self.dim,
            accent: self.accent,
            highlight: self.highlight,
            text: self.text,
            selected_fg: self.selected_fg,
            selected_bg: self.selected_bg,
            tag_artist: self.tag_artist,
            tag_album: self.tag_album,
            tag_song: self.tag_song,
            tag_artist_label: self.tag_artist_label.clone(),
            tag_album_label: self.tag_album_label.clone(),
            tag_song_label: self.tag_song_label.clone(),
        }
    }
}

/// The built-in theme (Tokyo Night Storm) with emoji badges.
pub open spec fn default_theme() -> ThemeView {
    ThemeView {
        dim: Color::Rgb(0x56, 0x5f, 0x89),
        accent: Color::Rgb(0x7a, 0xa2, 0xf7),
        highlight: Color::Rgb(0xe0, 0xaf, 0x68),
        text: Color::Rgb(0xc0, 0xca, 0xf5),
        selected_fg: Color::Rgb(0x1d, 0x20, 0x2f),
        selected_bg: Color::Rgb(0x7a, 0xa2, 0xf7),
        tag_artist: None,
        tag_album: None,
        tag_song: None,
        tag_artist_label: seq!['\u{1F3A4}'],
        tag_album_label: seq!['\u{1F4BF}'],
        tag_song_label: seq!['\u{1F3B5}'],
    }
}

fn one_char(c: char) -> (s: String)
    ensures
        s@ == seq![c],
{
    let mut s = String::new();
    crate::text::push_char(&mut s, c);
    s
}

impl Default for Theme {
    fn default() -> (t: Self)
        ensures
            t@ == default_theme(),
    {
        // Tokyo Night Storm
        Theme {
            dim: Color::Rgb(0x56, 0x5f, 0x89),
            accent: Color::Rgb(0x7a, 0xa2, 0xf7),
            highlight: Color::Rgb(0xe0, 0xaf, 0x68),
            text: Color::Rgb(0xc0, 0xca, 0xf5),
            selected_fg: Color::Rgb(0x1d, 0x20, 0x2f),
            selected_bg: Color::Rgb(0x7a, 0xa2, 0xf7),
            tag_artist: None,
            tag_album: None,
            tag_song: None,
            tag_artist_label: one_char('\u{1F3A4}'),
            tag_album_label: one_char('\u{1F4BF}'),
            tag_song_label: one_char('\u{1F3B5}'),
        }
    }
}

// ------------------------------------------------------------------
// Colour names
// ------------------------------------------------------------------

/// The colour that a (lowercased, trimmed) name stands for, if it is one of
/// the named colours.
pub open spec fn named_color(t: Seq<char>) -> Option<Color> {
    if t == "black"@ {
        Some(Color::Black)
    } else if t == "red"@ {
        Some(Color::Red)
    } else if t == "green"@ {
        Some(Color::Green)
    } else if t == "yellow"@ {
        Some(Color::Yellow)
    } else if t == "blue"@ {
        Some(Color::Blue)
    } else if t == "magenta"@ {
        Some(Color::Magenta)
    } else if t == "cyan"@ {
        Some(Color::Cyan)
    } else if t == "gray"@ || t == "grey"@ {
        Some(Color::Gray)
    } else if t == "darkgray"@ || t == "darkgrey"@ || t == "dark_gray"@ || t == "dark_grey"@ {
        Some(Color::DarkGray)
    } else if t == "white"@ {
        Some(Color::White)
    } else if t == "lightred"@ || t == "light_red"@ {
        Some(Color::LightRed)
    } else if t == "lightgreen"@ || t == "light_green"@ {
        Some(Color::LightGreen)
    } else if t == "lightyellow"@ || t == "light_yellow"@ {
        Some(Color::LightYellow)
    } else if t == "lightblue"@ || t == "light_blue"@ {
        Some(Color::LightBlue)
    } else if t == "lightmagenta"@ || t == "light_magenta"@ {
        Some(Color::LightMagenta)
    } else if t == "lightcyan"@ || t == "light_cyan"@ {
        Some(Color::LightCyan)
    } else {
        None
    }
}

fn named(t: &Vec<char>) -> (r: Option<Color>)
    ensures
        r == named_color(t@),
{
    if equals_lit(t, "black") {
        Some(Color::Black)
    } else if equals_lit(t, "red") {
        Some(Color::Red)
    } else if equals_lit(t, "green") {
        Some(Color::Green)
    } else if equals_lit(t, "yellow") {
        Some(Color::Yellow)
    } else if equals_lit(t, "blue") {
        Some(Color::Blue)
    } else if equals_lit(t, "magenta") {
        Some(Color::Magenta)
    } else if equals_lit(t, "cyan") {
        Some(Color::Cyan)
    } else if equals_lit(t, "gray") || equals_lit(t, "grey") {
        Some(Color::Gray)
    } else if equals_lit(t, "darkgray") || equals_lit(t, "darkgrey") || equals_lit(t, "dark_gray")
        || equals_lit(t, "dark_grey") {
        Some(Color::DarkGray)
    } else if equals_lit(t, "white") {
        Some(Color::White)
    } else if equals_lit(t, "lightred") || equals_lit(t, "light_red") {
        Some(Color::LightRed)
    } else if equals_lit(t, "lightgreen") || equals_lit(t, "light_green") {
        Some(Color::LightGreen)
    } else if equals_lit(t, "lightyellow") || equals_lit(t, "light_yellow") {
        Some(Color::LightYellow)
    } else if equals_lit(t, "lightblue") || equals_lit(t, "light_blue") {
        Some(Color::LightBlue)
    } else if equals_lit(t, "lightmagenta") || equals_lit(t, "light_magenta") {
        Some(Color::LightMagenta)
    } else if equals_lit(t, "lightcyan") || equals_lit(t, "light_cyan") {
        Some(Color::LightCyan)
    } else {
        None
    }
}

// ------------------------------------------------------------------
// Hexadecimal colours
// ------------------------------------------------------------------

pub open spec fn strip_hash(t: Seq<char>) -> Seq<char> {
    if t.len() > 0 && t[0] == '#' {
        t.drop_first()
    } else {
        t
    }
}

pub open spec fn is_hex_digit(c: char) -> bool {
    ('0' <= c && c <= '9') || ('a' <= c && c <= 'f') || ('A' <= c && c <= 'F')
}

pub open spec fn all_hex(s: Seq<char>) -> bool {
    forall|i: int| 0 <= i < s.len() ==> is_hex_digit(#[trigger] s[i])
}

pub open spec fn hex_digit_value(c: char) -> nat {
    if '0' <= c && c <= '9' {
        ((c as u32) - 48) as nat
    } else if 'a' <= c && c <= 'f' {
        ((c as u32) - 87) as nat
    } else {
        ((c as u32) - 55) as nat
    }
}

pub open spec fn hex_value(s: Seq<char>) -> nat
    decreases s.len(),
{
    if s.len() == 0 {
        0
    } else {
        hex_value(s.drop_last()) * 16 + hex_digit_value(s.last())
    }
}

/// What `u8::from_str_radix(s, 16)` gives: an optional `+` followed by one
/// or more hexadecimal digits whose value is at most 255.
pub open spec fn hex_u8(s: Seq<char>) -> Option<u8> {
    let body = if s.len() > 0 && s[0] == '+' {
        s.drop_first()
    } else {
        s
    };
    if body.len() > 0 && all_hex(body) && hex_value(body) <= 255 {
        Some(hex_value(body) as u8)
    } else {
        None
    }
}

proof fn lemma_hex_value_grows(s: Seq<char>, k: int)
    requires
        0 <= k <= s.len(),
        all_hex(s),
    ensures
        hex_value(s.take(k)) <= hex_value(s),
    decreases s.len() - k,
{
    if k < s.len() {
        lemma_hex_value_grows(s, k + 1);
        assert(s.take(k + 1).drop_last() == s.take(k));
    } else {
        assert(s.take(k) == s);
    }
}

fn hex_digit(c: char) -> (r: Option<u32>)
    ensures
        match r {
            Some(d) => is_hex_digit(c) && d == hex_digit_value(c),
            None => !is_hex_digit(c),
        },
{
    if '0' <= c && c <= '9' {
        Some(c as u32 - 48)
    } else if 'a' <= c && c <= 'f' {
        Some(c as u32 - 87)
    } else if 'A' <= c && c <= 'F' {
        Some(c as u32 - 55)
    } else {
        None
    }
}

/// Parses the characters `v[from..to]` as `u8::from_str_radix(_, 16)` does.
fn parse_hex_u8(v: &Vec<char>, from: usize, to: usize) -> (r: Option<u8>)
    requires
        from <= to <= v@.len(),
    ensures
        r == hex_u8(v@.subrange(from as int, to as int)),
{
    let ghost s = v@.subrange(from as int, to as int);
    let start: usize = if from < to && v[from] == '+' { from + 1 } else { from };
    let ghost body = if s.len() > 0 && s[0] == '+' { s.drop_first() } else { s };
    assert(body == v@.subrange(start as int, to as int));
    if start == to {
        return None;
    }
    let mut acc: u32 = 0;
    let mut i: usize = start;
    while i < to
        invariant
            from <= start < to <= v@.len(),
            start <= i <= to,
            s == v@.subrange(from as int, to as int),
            body == v@.subrange(start as int, to as int),
            body == (if s.len() > 0 && s[0] == '+' { s.drop_first() } else { s }),
            all_hex(v@.subrange(start as int, i as int)),
            acc as nat == hex_value(v@.subrange(start as int, i as int)),
            acc <= 255,
        decreases to - i,
    {
        let c = v[i];
        assert(v@.subrange(start as int, i + 1).drop_last() == v@.subrange(start as int, i as int));
        match hex_digit(c) {
            None => {
                assert(body[i - start] == c);
                return None;
            },
            Some(d) => {
                let next = acc * 16 + d;
                if next > 255 {
                    proof {
                        if all_hex(body) {
                            assert(body.take(i + 1 - start) == v@.subrange(start as int, i + 1));
                            lemma_hex_value_grows(body, i + 1 - start);
                        }
                    }
                    return None;
                }
                acc = next;
            },
        }
        i = i + 1;
    }
    assert(v@.subrange(start as int, to as int) == body);
    Some(acc as u8)
}

/// The colour of a six-byte hexadecimal text, split into three two-byte
/// parts: `Rgb` when each part parses, `Reset` otherwise.
pub open spec fn hex_color(hex: Seq<char>) -> Color {
    let i2 = boundary_index(hex, 2);
    let i4 = boundary_index(hex, 4);
    match (hex_u8(hex.subrange(0, i2)), hex_u8(hex.subrange(i2, i4)), hex_u8(hex.subrange(i4, hex.len() as int))) {
        (Some(r), Some(g), Some(b)) => Color::Rgb(r, g, b),
        _ => Color::Reset,
    }
}

/// The colour a lowercased, trimmed text names: a colour name, or
/// `#rrggbb` / `rrggbb` in hexadecimal, else the terminal default.
pub open spec fn color_of(t: Seq<char>) -> Color {
    match named_color(t) {
        Some(c) => c,
        None => {
            let hex = strip_hash(t);
            if byte_len(hex) == 6 {
                hex_color(hex)
            } else {
                Color::Reset
            }
        },
    }
}

/// Splitting a six-byte text at bytes 2 and 4 lands between characters.
pub open spec fn color_text_ok(t: Seq<char>) -> bool {
    named_color(t) is Some || byte_len(strip_hash(t)) != 6 || (boundary(strip_hash(t), 2) && boundary(
        strip_hash(t),
        4,
    ))
}

/// The colour that a configured colour text stands for (case and
/// surrounding whitespace are ignored).
pub open spec fn parse_color_spec(s: Seq<char>) -> Color {
    color_of(trim(lowercase(s)))
}

pub open spec fn parse_color_ok(s: Seq<char>) -> bool {
    color_text_ok(trim(lowercase(s)))
}

/// Where a six-byte text splits at bytes 2 and 4.
enum HexSplit {
    NotSix,
    Cut(usize, usize),
    NoBoundary,
}

fn hex_split(v: &Vec<char>) -> (r: HexSplit)
    ensures
        match r {
            HexSplit::NotSix => byte_len(v@) != 6,
            HexSplit::Cut(i2, i4) => byte_len(v@) == 6 && i2 <= i4 <= v@.len() && byte_len(v@.take(i2 as int))
                == 2 && byte_len(v@.take(i4 as int)) == 4,
            HexSplit::NoBoundary => byte_len(v@) == 6 && !(boundary(v@, 2) && boundary(v@, 4)),
        },
{
    let n = v.len();
    let mut acc: usize = 0;
    let mut i: usize = 0;
    let mut at2: Option<usize> = None;
    let mut at4: Option<usize> = None;
    assert(v@.take(0) =~= Seq::<char>::empty());
    while i < n && acc <= 6
        invariant
            n == v@.len(),
            i <= n,
            acc == byte_len(v@.take(i as int)),
            at2 matches Some(j) ==> j <= i && byte_len(v@.take(j as int)) == 2,
            at2 is None ==> forall|j: int| 0 <= j <= i ==> #[trigger] byte_len(v@.take(j)) != 2,
            at4 matches Some(j) ==> j <= i && byte_len(v@.take(j as int)) == 4,
            at4 is None ==> forall|j: int| 0 <= j <= i ==> #[trigger] byte_len(v@.take(j)) != 4,
        decreases n - i,
    {
        proof {
            lemma_byte_len_step(v@, i as int);
        }
        acc = acc + char_utf8_len(v[i]);
        i = i + 1;
        if acc == 2 {
            at2 = Some(i);
        }
        if acc == 4 {
            at4 = Some(i);
        }
        proof {
            if at2 is None {
                assert forall|j: int| 0 <= j <= i implies #[trigger] byte_len(v@.take(j)) != 2 by {
                    if j == i {
                    }
                }
            }
            if at4 is None {
                assert forall|j: int| 0 <= j <= i implies #[trigger] byte_len(v@.take(j)) != 4 by {
                    if j == i {
                    }
                }
            }
        }
    }
    if i == n {
        assert(v@.take(n as int) == v@);
    } else {
        assert(acc > 6);
        proof {
            lemma_byte_len_strict(v@, i as int, n as int);
            assert(v@.take(n as int) == v@);
        }
        return HexSplit::NotSix;
    }
    if acc != 6 {
        return HexSplit::NotSix;
    }
    match (at2, at4) {
        (Some(a), Some(b)) => {
            proof {
                if a > b {
                    lemma_byte_len_strict(v@, b as int, a as int);
                }
            }
            HexSplit::Cut(a, b)
        },
        _ => HexSplit::NoBoundary,
    }
}

fn strip_hash_chars(t: &Vec<char>) -> (r: Vec<char>)
    ensures
        r@ == strip_hash(t@),
{
    let n = t.len();
    let start: usize = if n > 0 && t[0] == '#' { 1 } else { 0 };
    let mut r: Vec<char> = Vec::new();
    let mut k = start;
    while k < n
        invariant
            n == t@.len(),
            start <= k <= n,
            r@ == t@.subrange(start as int, k as int),
        decreases n - k,
    {
        r.push(t[k]);
        assert(t@.subrange(start as int, k + 1) == t@.subrange(start as int, k as int).push(t@[k as int]));
        k = k + 1;
    }
    assert(strip_hash(t@) == t@.subrange(start as int, n as int));
    r
}

fn color_from_text(t: &Vec<char>) -> (c: Color)
    requires
        color_text_ok(t@),
    ensures
        c == color_of(t@),
{
    match named(t) {
        Some(c) => c,
        None => {
            let hex = strip_hash_chars(t);
            match hex_split(&hex) {
                HexSplit::Cut(i2, i4) => {
                    proof {
                        lemma_boundary_unique(hex@, 2, i2 as int);
                        lemma_boundary_unique(hex@, 4, i4 as int);
                    }
                    let n = hex.len();
                    let r = parse_hex_u8(&hex, 0, i2);
                    let g = parse_hex_u8(&hex, i2, i4);
                    let b = parse_hex_u8(&hex, i4, n);
                    match (r, g, b) {
                        (Some(r), Some(g), Some(b)) => Color::Rgb(r, g, b),
                        _ => Color::Reset,
                    }
                },
                _ => Color::Reset,
            }
        },
    }
}

fn color_text_checks(t: &Vec<char>) -> (ok: bool)
    ensures
        ok == color_text_ok(t@),
{
    match named(t) {
        Some(_) => true,
        None => {
            let hex = strip_hash_chars(t);
            match hex_split(&hex) {
                HexSplit::NoBoundary => false,
                HexSplit::NotSix => true,
                HexSplit::Cut(i2, i4) => {
                    proof {
                        lemma_boundary_unique(hex@, 2, i2 as int);
                        lemma_boundary_unique(hex@, 4, i4 as int);
                    }
                    true
                },
            }
        },
    }
}

/// The lowercased, trimmed characters of `s`.
fn normalized(s: &str) -> (t: Vec<char>)
    ensures
        t@ == trim(lowercase(s@)),
{
    let low = to_lowercase(s);
    let cs = chars_of(low.as_str());
    trim_chars(&cs)
}

pub fn parse_color(s: &str) -> (c: Color)
    requires
        parse_color_ok(s@),
    ensures
        c == parse_color_spec(s@),
{
    let t = normalized(s);
    color_from_text(&t)
}

/// Whether `parse_color` can split `s` (a six-byte hexadecimal text must
/// split between characters at bytes 2 and 4).
pub fn color_parses(s: &str) -> (ok: bool)
    ensures
        ok == parse_color_ok(s@),
{
    let t = normalized(s);
    color_text_checks(&t)
}

/// `parse_color` where it can split the text; `None` where it cannot.
pub fn try_parse_color(s: &str) -> (c: Option<Color>)
    ensures
        parse_color_ok(s@) ==> c == Some(parse_color_spec(s@)),
        !parse_color_ok(s@) ==> c is None,
{
    if color_parses(s) {
        Some(parse_color(s))
    } else {
        None
    }
}

/// "none" and "transparent" mean no colour at all.
pub open spec fn is_no_color(t: Seq<char>) -> bool {
    t == "none"@ || t == "transparent"@
}

pub open spec fn parse_color_opt_spec(s: Seq<char>) -> Option<Color> {
    if is_no_color(trim(lowercase(s))) {
        None
    } else {
        Some(parse_color_spec(s))
    }
}

pub open spec fn parse_color_opt_ok(s: Seq<char>) -> bool {
    is_no_color(trim(lowercase(s))) || parse_color_ok(s)
}

pub fn parse_color_opt(s: &str) -> (c: Option<Color>)
    requires
        parse_color_opt_ok(s@),
    ensures
        c == parse_color_opt_spec(s@),
{
    let t = normalized(s);
    if equals_lit(&t, "none") || equals_lit(&t, "transparent") {
        None
    } else {
        Some(parse_color(s))
    }
}

pub fn color_opt_parses(s: &str) -> (ok: bool)
    ensures
        ok == parse_color_opt_ok(s@),
{
    let t = normalized(s);
    equals_lit(&t, "none") || equals_lit(&t, "transparent") || color_parses(s)
}

// ------------------------------------------------------------------
// The theme configuration
// ------------------------------------------------------------------

/// TOML-serialisable theme config. All fields are optional strings.
#[derive(Debug, Default)]
pub struct ThemeConfig {
    /// Subdued/dim text color (default: "gray"). Accepts named colors or "#rrggbb".
    pub dim: Option<String>,
    /// Primary accent color (default: "cyan").
    pub accent: Option<String>,
    /// Secondary highlight color (default: "yellow").
    pub highlight: Option<String>,
    /// Primary body text color (default: "white").
    pub text: Option<String>,
    /// Text color of the selected row (default: "black").
    pub selected_fg: Option<String>,
    /// Background color of the selected row (default: "white").
    pub selected_bg: Option<String>,
    /// Background color of the artist type badge (default: "magenta").
    pub tag_artist: Option<String>,
    /// Background color of the album type badge (default: "blue").
    pub tag_album: Option<String>,
    /// Background color of the song type badge (default: "green").
    pub tag_song: Option<String>,
    /// Label text for the artist badge (default: "ART"). Unicode ok, e.g. "♪".
    pub tag_artist_label: Option<String>,
    /// Label text for the album badge (default: "ALB").
    pub tag_album_label: Option<String>,
    /// Label text for the song badge (default: "SNG").
    pub tag_song_label: Option<String>,
}

pub struct ThemeConfigView {
    pub dim: Option<Seq<char>>,
    pub accent: Option<Seq<char>>,
    pub highlight: Option<Seq<char>>,
    pub text: Option<Seq<char>>,
    pub selected_fg: Option<Seq<char>>,
    pub selected_bg: Option<Seq<char>>,
    pub tag_artist: Option<Seq<char>>,
    pub tag_album: Option<Seq<char>>,
    pub tag_song: Option<Seq<char>>,
    pub tag_artist_label: Option<Seq<char>>,
    pub tag_album_label: Option<Seq<char>>,
    pub tag_song_label: Option<Seq<char>>,
}

pub open spec fn opt_text(s: Option<String>) -> Option<Seq<char>> {
    match s {
        Some(t) => Some(t@),
        None => None,
    }
}

impl View for ThemeConfig {
    type V = ThemeConfigView;

    open spec fn view(&self) -> ThemeConfigView {
        ThemeConfigView {
            dim: opt_text(self.dim),
            accent: opt_text(self.accent),
            highlight: opt_text(self.highlight),
            text: opt_text(self.text),
            selected_fg: opt_text(self.selected_fg),
            selected_bg: opt_text(self.selected_bg),
            tag_artist: opt_text(self.tag_artist),
            tag_album: opt_text(self.tag_album),
            tag_song: opt_text(self.tag_song),
            tag_artist_label: opt_text(self.tag_artist_label),
            tag_album_label: opt_text(self.tag_album_label),
            tag_song_label: opt_text(self.tag_song_label),
        }
    }
}

/// A configured colour, or the default when none is configured.
pub open spec fn color_or(s: Option<Seq<char>>, d: Color) -> Color {
    match s {
        Some(t) => parse_color_spec(t),
        None => d,
    }
}

pub open spec fn color_opt_or(s: Option<Seq<char>>, d: Option<Color>) -> Option<Color> {
    match s {
        Some(t) => parse_color_opt_spec(t),
        None => d,
    }
}

pub open spec fn text_or(s: Option<Seq<char>>, d: Seq<char>) -> Seq<char> {
    match s {
        Some(t) => t,
        None => d,
    }
}

pub open spec fn color_field_ok(s: Option<Seq<char>>) -> bool {
    match s {
        Some(t) => parse_color_ok(t),
        None => true,
    }
}

pub open spec fn color_opt_field_ok(s: Option<Seq<char>>) -> bool {
    match s {
        Some(t) => parse_color_opt_ok(t),
        None => true,
    }
}

/// Every configured colour text can be parsed.
pub open spec fn theme_config_ok(c: ThemeConfigView) -> bool {
    &&& color_field_ok(c.dim)
    &&& color_field_ok(c.accent)
    &&& color_field_ok(c.highlight)
    &&& color_field_ok(c.text)
    &&& color_field_ok(c.selected_fg)
    &&& color_field_ok(c.selected_bg)
    &&& color_opt_field_ok(c.tag_artist)
    &&& color_opt_field_ok(c.tag_album)
    &&& color_opt_field_ok(c.tag_song)
}

/// The theme for a configuration: each configured field is parsed; each
/// field left out takes its documented default (gray, cyan, yellow, white,
/// black on white for the selection, magenta, blue and green badges
/// labelled ART, ALB and SNG).
pub open spec fn resolved_theme(c: ThemeConfigView) -> ThemeView {
    ThemeView {
        dim: color_or(c.dim, Color::Gray),
        accent: color_or(c.accent, Color::Cyan),
        highlight: color_or(c.highlight, Color::Yellow),
        text: color_or(c.text, Color::White),
        selected_fg: color_or(c.selected_fg, Color::Black),
        selected_bg: color_or(c.selected_bg, Color::White),
        tag_artist: color_opt_or(c.tag_artist, Some(Color::Magenta)),
        tag_album: color_opt_or(c.tag_album, Some(Color::Blue)),
        tag_song: color_opt_or(c.tag_song, Some(Color::Green)),
        tag_artist_label: text_or(c.tag_artist_label, "ART"@),
        tag_album_label: text_or(c.tag_album_label, "ALB"@),
        tag_song_label: text_or(c.tag_song_label, "SNG"@),
    }
}

fn color_field(s: &Option<String>, d: Color) -> (c: Color)
    requires
        color_field_ok(opt_text(*s)),
    ensures
        c == color_or(opt_text(*s), d),
{
    match s {
        Some(t) => parse_color(t.as_str()),
        None => d,
    }
}

fn color_opt_field(s: &Option<String>, d: Option<Color>) -> (c: Option<Color>)
    requires
        color_opt_field_ok(opt_text(*s)),
    ensures
        c == color_opt_or(opt_text(*s), d),
{
    match s {
        Some(t) => parse_color_opt(t.as_str()),
        None => d,
    }
}

fn text_field(s: &Option<String>, d: String) -> (r: String)
    ensures
        r@ == text_or(opt_text(*s), d@),
{
    match s {
        Some(t) => t.clone(),
        None => d,
    }
}

fn color_field_checks(s: &Option<String>) -> (ok: bool)
    ensures
        ok == color_field_ok(opt_text(*s)),
{
    match s {
        Some(t) => color_parses(t.as_str()),
        None => true,
    }
}

fn color_opt_field_checks(s: &Option<String>) -> (ok: bool)
    ensures
        ok == color_opt_field_ok(opt_text(*s)),
{
    match s {
        Some(t) => color_opt_parses(t.as_str()),
        None => true,
    }
}

impl ThemeConfig {
    pub fn resolve(&self) -> (t: Theme)
        requires
            theme_config_ok(self@),
        ensures
            t@ == resolved_theme(self@),
    {
        Theme {
            dim: color_field(&self.dim, Color::Gray),
            accent: color_field(&self.accent, Color::Cyan),
            highlight: color_field(&self.highlight, Color::Yellow),
            text: color_field(&self.text, Color::White),
            selected_fg: color_field(&self.selected_fg, Color::Black),
            selected_bg: color_field(&self.selected_bg, Color::White),
            tag_artist: color_opt_field(&self.tag_artist, Some(Color::Magenta)),
            tag_album: color_opt_field(&self.tag_album, Some(Color::Blue)),
            tag_song: color_opt_field(&self.tag_song, Some(Color::Green)),
            tag_artist_label: text_field(&self.tag_artist_label, string_from("ART")),
            tag_album_label: text_field(&self.tag_album_label, string_from("ALB")),
            tag_song_label: text_field(&self.tag_song_label, string_from("SNG")),
        }
    }

    /// Whether every configured colour text can be parsed.
    pub fn colors_parse(&self) -> (ok: bool)
        ensures
            ok == theme_config_ok(self@),
    {
        color_field_checks(&self.dim) && color_field_checks(&self.accent) && color_field_checks(
            &self.highlight,
        ) && color_field_checks(&self.text) && color_field_checks(&self.selected_fg)
            && color_field_checks(&self.selected_bg) && color_opt_field_checks(&self.tag_artist)
            && color_opt_field_checks(&self.tag_album) && color_opt_field_checks(&self.tag_song)
    }

    /// The resolved theme where every colour text can be parsed; `None`
    /// otherwise.
    pub fn try_resolve(&self) -> (t: Option<Theme>)
        ensures
            theme_config_ok(self@) ==> (t matches Some(th) && th@ == resolved_theme(self@)),
            !theme_config_ok(self@) ==> t is None,
    {
        if self.colors_parse() {
            Some(self.resolve())
        } else {
            None
        }
    }
}


// ------------------------------------------------------------------
// The whole configuration and choosing a system
// ------------------------------------------------------------------

/// Full on-disk config: the theme table plus one table per Kodi system,
/// each under its name (names are distinct).
#[derive(Debug)]
pub struct FullConfig {
    pub theme: ThemeConfig,
    pub systems: Vec<(String, KodiSystem)>,
}

pub open spec fn system_names(cfg: &FullConfig) -> Seq<Seq<char>> {
    cfg.systems@.map_values(|e: (String, KodiSystem)| e.0@)
}

/// The names of the systems are distinct (they are the keys of a table).
pub open spec fn names_distinct(names: Seq<Seq<char>>) -> bool {
    forall|i: int, j: int| 0 <= i < names.len() && 0 <= j < names.len() && i != j ==> names[i] != names[j]
}

impl FullConfig {
    pub open spec fn wf(&self) -> bool {
        names_distinct(system_names(self))
    }

    /// Whether the system names are distinct (`wf`); a caller checks this
    /// before `resolve`.
    pub fn names_unique(&self) -> (r: bool)
        ensures
            r == self.wf(),
    {
        let ghost names = system_names(self);
        let n = self.systems.len();
        for i in 0..n
            invariant
                n == self.systems@.len(),
                names == system_names(self),
                forall|a: int, b: int| 0 <= a < i && 0 <= b < n && a != b ==> names[a] != names[b],
        {
            let ci = chars_of(self.systems[i].0.as_str());
            for j in 0..n
                invariant
                    n == self.systems@.len(),
                    names == system_names(self),
                    i < n,
                    ci@ == names[i as int],
                    forall|a: int, b: int| 0 <= a < i && 0 <= b < n && a != b ==> names[a] != names[b],
                    forall|b: int| 0 <= b < j && b != i ==> names[i as int] != names[b],
            {
                if j != i {
                    let cj = chars_of(self.systems[j].0.as_str());
                    if same_chars(&ci, &cj) {
                        assert(names[i as int] == names[j as int]);
                        return false;
                    }
                }
            }
            assert forall|a: int, b: int| 0 <= a < i + 1 && 0 <= b < n && a != b implies names[a] != names[b] by {
                if a == i {
                } else if b == i {
                    assert(names[b] != names[a]);
                }
            }
        }
        true
    }
}

/// Lexicographic order of character sequences (the order of `str`).
pub open spec fn lex_le(a: Seq<char>, b: Seq<char>) -> bool
    decreases a.len(),
{
    if a.len() == 0 {
        true
    } else if b.len() == 0 {
        false
    } else if a[0] != b[0] {
        a[0] < b[0]
    } else {
        lex_le(a.drop_first(), b.drop_first())
    }
}

pub open spec fn sorted(s: Seq<Seq<char>>) -> bool {
    forall|i: int, j: int| 0 <= i < j < s.len() ==> lex_le(#[trigger] s[i], #[trigger] s[j])
}

/// `out` is `names` in ascending order.
pub open spec fn sorted_names(names: Seq<Seq<char>>, out: Seq<Seq<char>>) -> bool {
    &&& out.len() == names.len()
    &&& forall|x: Seq<char>| out.contains(x) <==> names.contains(x)
    &&& sorted(out)
}

proof fn lemma_lex_total(a: Seq<char>, b: Seq<char>)
    ensures
        lex_le(a, b) || lex_le(b, a),
    decreases a.len(),
{
    if a.len() > 0 && b.len() > 0 && a[0] == b[0] {
        lemma_lex_total(a.drop_first(), b.drop_first());
    }
}

proof fn lemma_lex_trans(a: Seq<char>, b: Seq<char>, c: Seq<char>)
    requires
        lex_le(a, b),
        lex_le(b, c),
    ensures
        lex_le(a, c),
    decreases a.len(),
{
    if a.len() > 0 && b.len() > 0 && c.len() > 0 && a[0] == b[0] && b[0] == c[0] {
        lemma_lex_trans(a.drop_first(), b.drop_first(), c.drop_first());
    }
}

fn lex_le_exec(a: &Vec<char>, b: &Vec<char>) -> (r: bool)
    ensures
        r == lex_le(a@, b@),
{
    let n = a.len();
    let m = b.len();
    let mut i: usize = 0;
    assert(a@.skip(0) == a@);
    assert(b@.skip(0) == b@);
    assert(a@.subrange(0, 0) =~= b@.subrange(0, 0));
    while i < n
        invariant
            n == a@.len(),
            m == b@.len(),
            i <= n,
            i <= m,
            a@.subrange(0, i as int) == b@.subrange(0, i as int),
            lex_le(a@, b@) == lex_le(a@.skip(i as int), b@.skip(i as int)),
        decreases n - i,
    {
        if i == m {
            assert(b@.skip(i as int).len() == 0);
            assert(a@.skip(i as int).len() > 0);
            return false;
        }
        assert(a@.skip(i as int)[0] == a@[i as int]);
        assert(b@.skip(i as int)[0] == b@[i as int]);
        if a[i] != b[i] {
            return a[i] < b[i];
        }
        assert(a@.skip(i as int).drop_first() == a@.skip(i + 1));
        assert(b@.skip(i as int).drop_first() == b@.skip(i + 1));
        assert(a@.subrange(0, i + 1) == a@.subrange(0, i as int).push(a@[i as int]));
        assert(b@.subrange(0, i + 1) == b@.subrange(0, i as int).push(b@[i as int]));
        i = i + 1;
    }
    assert(a@.skip(i as int).len() == 0);
    true
}

/// The names in ascending order.
pub fn sort_names(names: &Vec<String>) -> (r: Vec<String>)
    ensures
        sorted_names(names.deep_view(), r.deep_view()),
{
    let n = names.len();
    let ghost nv = names.deep_view();
    let mut out: Vec<String> = Vec::new();
    for i in 0..n
        invariant
            n == names@.len(),
            nv == names.deep_view(),
            out@.len() == i,
            forall|x: Seq<char>| out.deep_view().contains(x) <==> nv.take(i as int).contains(x),
            sorted(out.deep_view()),
    {
        let key = names[i].clone();
        let kc = chars_of(key.as_str());
        let len = out.len();
        let mut p: usize = 0;
        while p < len
            invariant
                len == out@.len(),
                p <= len,
                kc@ == key@,
                forall|k: int| 0 <= k < p ==> lex_le(#[trigger] out.deep_view()[k], key@),
            ensures
                p <= len,
                forall|k: int| 0 <= k < p ==> lex_le(#[trigger] out.deep_view()[k], key@),
                p < len ==> !lex_le(out.deep_view()[p as int], key@),
            decreases len - p,
        {
            let oc = chars_of(out[p].as_str());
            assert(out.deep_view()[p as int] == out@[p as int]@);
            if !lex_le_exec(&oc, &kc) {
                break;
            }
            p = p + 1;
        }
        let ghost before = out.deep_view();
        out.insert(p, key);
        proof {
            assert(out.deep_view() =~= before.insert(p as int, kc@));
            assert(nv.take(i + 1) == nv.take(i as int).push(nv[i as int]));
            assert(nv[i as int] == kc@);
            assert forall|x: Seq<char>| out.deep_view().contains(x) <==> nv.take(i + 1).contains(x) by {
                let ov = out.deep_view();
                let tk = nv.take(i + 1);
                let ti = nv.take(i as int);
                if ov.contains(x) {
                    let q = choose|q: int| 0 <= q < ov.len() && ov[q] == x;
                    if q == p {
                        assert(tk[i as int] == x);
                    } else {
                        if q < p {
                            assert(before[q] == x);
                        } else {
                            assert(before[q - 1] == x);
                        }
                        assert(before.contains(x));
                        assert(ti.contains(x));
                        let r = choose|r: int| 0 <= r < ti.len() && ti[r] == x;
                        assert(tk[r] == x);
                    }
                }
                if tk.contains(x) {
                    let q = choose|q: int| 0 <= q < tk.len() && tk[q] == x;
                    if q == i {
                        assert(ov[p as int] == x);
                    } else {
                        assert(ti[q] == x);
                        assert(ti.contains(x));
                        assert(before.contains(x));
                        let r = choose|r: int| 0 <= r < before.len() && before[r] == x;
                        if r < p {
                            assert(ov[r] == x);
                        } else {
                            assert(ov[r + 1] == x);
                        }
                    }
                }
            }
            assert forall|a: int, b: int| 0 <= a < b < out.deep_view().len() implies lex_le(
                #[trigger] out.deep_view()[a],
                #[trigger] out.deep_view()[b],
            ) by {
                let ov = out.deep_view();
                if b < p {
                    assert(ov[a] == before[a] && ov[b] == before[b]);
                } else if b == p {
                    assert(ov[a] == before[a]);
                } else if a < p {
                    assert(ov[a] == before[a] && ov[b] == before[b - 1]);
                } else if a == p {
                    assert(ov[b] == before[b - 1]);
                    lemma_lex_total(before[p as int], kc@);
                    if b - 1 > p {
                        lemma_lex_trans(kc@, before[p as int], before[b - 1]);
                    }
                } else {
                    assert(ov[a] == before[a - 1] && ov[b] == before[b - 1]);
                }
            }
        }
    }
    assert(nv.take(n as int) == nv);
    out
}

/// Why no system could be chosen, with the configured names in ascending
/// order.
#[derive(Debug)]
pub enum ResolveError {
    NoSuchSystem { name: String, available: Vec<String> },
    NoDefault { available: Vec<String> },
}

/// "no system named '<name>' (available: <names>)".
pub open spec fn no_such_text(name: Seq<char>, available: Seq<Seq<char>>) -> Seq<char> {
    "no system named '"@ + name + "' (available: "@ + join(available, seq![',', ' ']) + seq![')']
}

/// The usage hint shown when no system is marked as the default.
pub open spec fn no_default_text(available: Seq<Seq<char>>, config_path: Seq<char>) -> Seq<char> {
    "No default system configured.\n\nUsage:\n   koditerm --system <name>    connect to a named system\n\nAvailable systems: "@
        + join(available, seq![',', ' '])
        + "\n\nTip: add 'default = true' to one of your systems in\n   "@ + config_path
}

impl ResolveError {
    /// The message shown for the error; `config_path` is where the
    /// configuration file lives.
    pub fn message(&self, config_path: &str) -> (r: String)
        ensures
            match self {
                ResolveError::NoSuchSystem { name, available } => r@ == no_such_text(name@, available.deep_view()),
                ResolveError::NoDefault { available } => r@ == no_default_text(available.deep_view(), config_path@),
            },
    {
        proof {
            reveal_strlit(", ");
            assert(", "@ =~= seq![',', ' ']);
        }
        match self {
            ResolveError::NoSuchSystem { name, available } => {
                let mut r = string_from("no system named '");
                push_str(&mut r, name.as_str());
                push_str(&mut r, "' (available: ");
                let j = join_strings(available, ", ");
                push_str(&mut r, j.as_str());
                push_char(&mut r, ')');
                r
            },
            ResolveError::NoDefault { available } => {
                let mut r = string_from(
                    "No default system configured.\n\nUsage:\n   koditerm --system <name>    connect to a named system\n\nAvailable systems: ",
                );
                let j = join_strings(available, ", ");
                push_str(&mut r, j.as_str());
                push_str(&mut r, "\n\nTip: add 'default = true' to one of your systems in\n   ");
                push_str(&mut r, config_path);
                r
            },
        }
    }
}

/// The position of the system called `name`.
pub open spec fn system_index(names: Seq<Seq<char>>, name: Seq<char>) -> Option<int> {
    if exists|i: int| 0 <= i < names.len() && names[i] == name {
        Some(choose|i: int| 0 <= i < names.len() && names[i] == name)
    } else {
        None
    }
}

/// The position of the first system marked as the default.
pub open spec fn default_index(cfg: &FullConfig) -> Option<int> {
    if exists|i: int| 0 <= i < cfg.systems@.len() && (#[trigger] cfg.systems@[i]).1.default {
        Some(choose|i: int| 0 <= i < cfg.systems@.len() && cfg.systems@[i].1.default && forall|j: int| 0 <= j < i ==> !(#[trigger] cfg.systems@[j]).1.default)
    } else {
        None
    }
}

fn names_of(cfg: &FullConfig) -> (r: Vec<String>)
    ensures
        r.deep_view() == system_names(cfg),
{
    let n = cfg.systems.len();
    let mut r: Vec<String> = Vec::new();
    for i in 0..n
        invariant
            n == cfg.systems@.len(),
            r@.len() == i,
            forall|j: int| 0 <= j < i ==> #[trigger] r@[j]@ == cfg.systems@[j].0@,
    {
        r.push(cfg.systems[i].0.clone());
    }
    assert(r.deep_view() =~= system_names(cfg));
    r
}

pub open spec fn opt_str_view(name: Option<&str>) -> Option<Seq<char>> {
    match name {
        Some(n) => Some(n@),
        None => None,
    }
}

/// The result of choosing a system: the named one, else the first default.
pub open spec fn resolve_spec(cfg: &FullConfig, name: Option<Seq<char>>, r: Result<(&str, &KodiSystem), ResolveError>) -> bool {
    let chosen = match name {
        Some(n) => system_index(system_names(cfg), n),
        None => default_index(cfg),
    };
    match chosen {
        Some(i) => match r {
            Ok((k, v)) => k@ == cfg.systems@[i].0@ && *v == cfg.systems@[i].1,
            Err(_) => false,
        },
        None => match r {
            Ok(_) => false,
            Err(ResolveError::NoSuchSystem { name: e, available }) => name == Some(e@) && sorted_names(
                system_names(cfg),
                available.deep_view(),
            ),
            Err(ResolveError::NoDefault { available }) => name is None && sorted_names(
                system_names(cfg),
                available.deep_view(),
            ),
        },
    }
}

/// The named system when a name is given; otherwise the first system marked
/// `default = true`. The errors carry the configured names, sorted.
pub fn resolve<'a>(cfg: &'a FullConfig, name: Option<&str>) -> (r: Result<(&'a str, &'a KodiSystem), ResolveError>)
    requires
        cfg.wf(),
    ensures
        resolve_spec(cfg, opt_str_view(name), r),
{
    let count = cfg.systems.len();
    let ghost names = system_names(cfg);
    if let Some(n) = name {
        let nc = chars_of(n);
        for i in 0..count
            invariant
                count == cfg.systems@.len(),
                cfg.wf(),
                name == Some(n),
                names == system_names(cfg),
                nc@ == n@,
                forall|j: int| 0 <= j < i ==> names[j] != n@,
        {
            let kc = chars_of(cfg.systems[i].0.as_str());
            if same_chars(&kc, &nc) {
                proof {
                    assert(names[i as int] == n@);
                    let c = choose|c: int| 0 <= c < names.len() && names[c] == n@;
                    assert(c == i);
                }
                let e = &cfg.systems[i];
                return Ok((e.0.as_str(), &e.1));
            }
        }
        let available = sort_names(&names_of(cfg));
        return Err(ResolveError::NoSuchSystem { name: string_from(n), available });
    }
    for i in 0..count
        invariant
            count == cfg.systems@.len(),
            name is None,
            forall|j: int| 0 <= j < i ==> !(#[trigger] cfg.systems@[j]).1.default,
    {
        if cfg.systems[i].1.default {
            proof {
                let c = choose|c: int| 0 <= c < cfg.systems@.len() && cfg.systems@[c].1.default && forall|j: int| 0 <= j < c ==> !(#[trigger] cfg.systems@[j]).1.default;
                if c < i {
                } else if c > i {
                    assert(!cfg.systems@[i as int].1.default);
                }
            }
            let e = &cfg.systems[i];
            return Ok((e.0.as_str(), &e.1));
        }
    }
    let available = sort_names(&names_of(cfg));
    Err(ResolveError::NoDefault { available })
}

/// What is wrong with a configuration file's contents.
#[derive(Debug, Clone, Copy, PartialEq, Eq, Structural)]
pub enum ConfigError {
    NoSystems,
}

impl ConfigError {
    pub fn message(&self) -> (r: String)
        ensures
            r@ == "config contains no systems"@,
    {
        string_from("config contains no systems")
    }
}

/// A loaded configuration must name at least one system.
pub fn check_config(cfg: &FullConfig) -> (r: Result<(), ConfigError>)
    ensures
        r is Ok <==> cfg.systems@.len() > 0,
        r is Err ==> r == Err::<(), ConfigError>(ConfigError::NoSystems),
{
    if cfg.systems.len() == 0 {
        Err(ConfigError::NoSystems)
    } else {
        Ok(())
    }
}

pub open spec fn some_text(t: Seq<char>) -> Option<Seq<char>> {
    Some(t)
}

/// The configuration written on first start: one system `my-kodi` marked as
/// the default, and the built-in theme spelled out.
pub open spec fn default_config_spec(cfg: &FullConfig) -> bool {
    &&& cfg.systems@.len() == 1
    &&& cfg.systems@[0].0@ == "my-kodi"@
    &&& cfg.systems@[0].1@ == (KodiSystemView {
        host: "192.168.1.1"@,
        port: 80,
        username: "kodi"@,
        password: "kodi"@,
        default: true,
    })
    &&& cfg.theme@ == (ThemeConfigView {
        dim: some_text("#565f89"@),
        accent: some_text("#7aa2f7"@),
        highlight: some_text("#e0af68"@),
        text: some_text("#c0caf5"@),
        selected_fg: some_text("#1d202f"@),
        selected_bg: some_text("#7aa2f7"@),
        tag_artist: some_text("none"@),
        tag_album: some_text("none"@),
        tag_song: some_text("none"@),
        tag_artist_label: some_text(seq!['\u{1F3A4}']),
        tag_album_label: some_text(seq!['\u{1F4BF}']),
        tag_song_label: some_text(seq!['\u{1F3B5}']),
    })
}

pub fn default_config() -> (cfg: FullConfig)
    ensures
        default_config_spec(&cfg),
        cfg.wf(),
{
    let mut systems: Vec<(String, KodiSystem)> = Vec::new();
    systems.push(
        (
            string_from("my-kodi"),
            KodiSystem {
                host: string_from("192.168.1.1"),
                port: 80,
                username: string_from("kodi"),
                password: string_from("kodi"),
                default: true,
            },
        ),
    );
    // Default theme: Tokyo Night Storm
    let theme = ThemeConfig {
        dim: Some(string_from("#565f89")),
        accent: Some(string_from("#7aa2f7")),
        highlight: Some(string_from("#e0af68")),
        text: Some(string_from("#c0caf5")),
        selected_fg: Some(string_from("#1d202f")),
        selected_bg: Some(string_from("#7aa2f7")),
        tag_artist: Some(string_from("none")),
        tag_album: Some(string_from("none")),
        tag_song: Some(string_from("none")),
        tag_artist_label: Some(one_char('\u{1F3A4}')),
        tag_album_label: Some(one_char('\u{1F4BF}')),
        tag_song_label: Some(one_char('\u{1F3B5}')),
    };
    let cfg = FullConfig { theme, systems };
    assert(system_names(&cfg).len() == 1);
    cfg
}

} // verus!
