use koditerm::app::{LibraryItem, SearchMode};
use koditerm::kodi::{Album, Artist, Song};
use koditerm::search::{exact_match, filter_albums, filter_artists, filter_songs, fuzzy_score, rank, select};

fn artist(id: u32, label: &str) -> Artist {
    Artist { artistid: id, label: label.to_string() }
}

fn album(id: u32, label: &str, artists: &[&str], year: Option<u32>) -> Album {
    Album {
        albumid: id,
        label: label.to_string(),
        artist: artists.iter().map(|a| a.to_string()).collect(),
        year,
    }
}

fn song(id: u32, label: &str, artists: &[&str], album: &str) -> Song {
    Song {
        songid: id,
        label: label.to_string(),
        artist: artists.iter().map(|a| a.to_string()).collect(),
        album: album.to_string(),
        track: None,
        duration: None,
    }
}

fn ids(items: &[LibraryItem]) -> Vec<u32> {
    items
        .iter()
        .map(|i| match i {
            LibraryItem::Artist(a) => a.artistid,
            LibraryItem::Album(a) => a.albumid,
            LibraryItem::Song(s) => s.songid,
        })
        .collect()
}

#[test]
fn exact_match_ignores_case() {
    assert!(exact_match("The Beatles", "BEAT"));
    assert!(exact_match("The Beatles", "les"));
    assert!(!exact_match("abc", "abd"));
    assert!(exact_match("abc", ""));
    assert!(!exact_match("", "a"));
}

#[test]
fn fuzzy_score_of_empty_needle_is_zero() {
    assert_eq!(fuzzy_score("anything", ""), Some(0));
    assert_eq!(fuzzy_score("", ""), Some(0));
}

#[test]
fn fuzzy_score_is_minus_the_end_of_the_greedy_match() {
    assert_eq!(fuzzy_score("abcdef", "ace"), Some(-5));
    assert_eq!(fuzzy_score("The Beatles", "TB"), Some(-5));
    assert_eq!(fuzzy_score("abc", "a"), Some(-1));
    assert_eq!(fuzzy_score("aXbXc", "abc"), Some(-5));
}

#[test]
fn fuzzy_score_none_when_not_a_subsequence() {
    assert_eq!(fuzzy_score("ABC", "abd"), None);
    assert_eq!(fuzzy_score("abc", "cb"), None);
    assert_eq!(fuzzy_score("", "x"), None);
}

#[test]
fn exact_match_implies_fuzzy_match_on_examples() {
    for (h, n) in [("The Beatles", "beat"), ("Queen", "EE"), ("Abba", "ba"), ("x", "x")] {
        assert!(exact_match(h, n));
        assert!(fuzzy_score(h, n).is_some());
    }
}

#[test]
fn rank_orders_by_score_keeping_ties_in_order() {
    let scores = vec![Some(-2), None, Some(-3), Some(-2), Some(0)];
    assert_eq!(rank(&scores), vec![2, 0, 3, 4]);
    assert_eq!(rank(&vec![]), Vec::<usize>::new());
}

#[test]
fn select_lists_all_for_empty_query() {
    let texts = vec!["b".to_string(), "a".to_string()];
    assert_eq!(select(&texts, "", SearchMode::Fuzzy), vec![0, 1]);
    assert_eq!(select(&texts, "A", SearchMode::Exact), vec![1]);
}

#[test]
fn filter_artists_by_mode() {
    let artists = vec![artist(1, "Abba"), artist(2, "Beatles"), artist(3, "Queen")];
    assert_eq!(ids(&filter_artists(&artists, "", SearchMode::Exact)), vec![1, 2, 3]);
    assert_eq!(ids(&filter_artists(&artists, "e", SearchMode::Exact)), vec![2, 3]);
    // "e" ends at position 2 in "beatles" and 3 in "queen": lower scores first.
    assert_eq!(ids(&filter_artists(&artists, "e", SearchMode::Fuzzy)), vec![3, 2]);
    assert_eq!(ids(&filter_artists(&artists, "ae", SearchMode::Fuzzy)), vec![2]);
    assert!(filter_artists(&artists, "zz", SearchMode::Fuzzy).is_empty());
}

#[test]
fn filter_albums_searches_title_and_artists() {
    let albums = vec![
        album(10, "Abbey Road", &["The Beatles"], Some(1969)),
        album(11, "Arrival", &["ABBA"], Some(1976)),
    ];
    assert_eq!(ids(&filter_albums(&albums, "beatles", SearchMode::Exact)), vec![10]);
    assert_eq!(ids(&filter_albums(&albums, "road the", SearchMode::Exact)), vec![10]);
    assert_eq!(ids(&filter_albums(&albums, "abba", SearchMode::Exact)), vec![11]);
    assert_eq!(ids(&filter_albums(&albums, "", SearchMode::Fuzzy)), vec![10, 11]);
}

#[test]
fn filter_songs_searches_title_artists_and_album() {
    let songs = vec![
        song(20, "Help!", &["The Beatles"], "Help!"),
        song(21, "Waterloo", &["ABBA"], "Waterloo"),
    ];
    assert_eq!(ids(&filter_songs(&songs, "help abba", SearchMode::Exact)), Vec::<u32>::new());
    assert_eq!(ids(&filter_songs(&songs, "waterloo abba", SearchMode::Exact)), vec![21]);
    assert_eq!(ids(&filter_songs(&songs, "abba water", SearchMode::Exact)), vec![21]);
    assert_eq!(ids(&filter_songs(&songs, "hlp", SearchMode::Fuzzy)), vec![20]);
}

#[test]
fn library_item_labels() {
    let a = LibraryItem::Album(album(1, "Arrival", &["ABBA", "Benny"], Some(1976)));
    assert_eq!(a.display_label(), "Arrival");
    assert_eq!(a.type_label(), "Album");
    assert_eq!(a.subtitle(), "ABBA, Benny (1976)");
    let zero = LibraryItem::Album(album(2, "Unknown", &["X"], Some(0)));
    assert_eq!(zero.subtitle(), "X");
    let none = LibraryItem::Album(album(3, "Unknown", &[], None));
    assert_eq!(none.subtitle(), "");
    let s = LibraryItem::Song(song(4, "Help!", &["The Beatles"], "Help!"));
    assert_eq!(s.type_label(), "Song");
    assert_eq!(s.subtitle(), "The Beatles \u{2014} Help!");
    let r = LibraryItem::Artist(artist(5, "Queen"));
    assert_eq!(r.display_label(), "Queen");
    assert_eq!(r.type_label(), "Artist");
    assert_eq!(r.subtitle(), "");
}
