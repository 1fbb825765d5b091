use koditerm::app::{App, InputMode, LibraryItem, PlaybackBackend, RepeatMode, SearchMode, SearchScope};
use koditerm::config::Theme;
use koditerm::kodi::{Album, Artist, Song};

fn artists(n: u32) -> Vec<Artist> {
    (0..n).map(|i| Artist { artistid: i, label: format!("Artist {i}") }).collect()
}

fn loaded_app(n: u32) -> App {
    let mut app = App::new(Theme::default());
    assert!(app.window_fits());
    app.set_artists(artists(n));
    app.set_albums(Vec::new());
    app.set_songs(Vec::new());
    app
}

fn selected_id(app: &App) -> Option<u32> {
    match app.selected_item() {
        Some(LibraryItem::Artist(a)) => Some(a.artistid),
        Some(LibraryItem::Album(a)) => Some(a.albumid),
        Some(LibraryItem::Song(s)) => Some(s.songid),
        None => None,
    }
}

#[test]
fn new_app_is_loading() {
    let app = App::new(Theme::default());
    assert!(app.loading);
    assert_eq!(app.status_message.as_deref(), Some("Loading library\u{2026}"));
    assert_eq!(app.input_mode, InputMode::Normal);
    assert_eq!(app.search_scope, SearchScope::All);
    assert_eq!(app.search_mode, SearchMode::Exact);
    assert_eq!(app.backend, PlaybackBackend::Remote);
    assert_eq!(app.repeat_mode, RepeatMode::Off);
    assert_eq!(app.visible_rows, 20);
    assert_eq!(app.local_volume, 100);
    assert!(app.filtered_items.is_empty());
    assert_eq!(app.selected_item().is_none(), true);
}

#[test]
fn loading_message_names_pending_lists() {
    let mut app = App::new(Theme::default());
    app.set_albums(Vec::new());
    assert_eq!(app.status_message.as_deref(), Some("Loading artists, songs\u{2026}"));
    assert!(app.loading);
    app.set_artists(artists(2));
    assert_eq!(app.status_message.as_deref(), Some("Loading songs\u{2026}"));
    assert_eq!(app.filtered_items.len(), 2);
    app.set_songs(Vec::new());
    assert_eq!(app.status_message, None);
    assert!(!app.loading);
    assert!(app.library_loaded);
}

#[test]
fn moving_down_and_up_scrolls_the_window() {
    let mut app = loaded_app(50);
    app.visible_rows = 10;
    app.move_down_by(12, 10);
    assert_eq!(app.selected, 12);
    assert_eq!(app.list_offset, 3);
    app.move_up_by(5, 10);
    assert_eq!(app.selected, 7);
    assert_eq!(app.list_offset, 3);
    app.move_up_by(100, 10);
    assert_eq!(app.selected, 0);
    assert_eq!(app.list_offset, 0);
    app.move_down_by(1000, 10);
    assert_eq!(app.selected, 49);
    assert_eq!(app.list_offset, 40);
}

#[test]
fn page_and_half_page_moves() {
    let mut app = loaded_app(50);
    app.visible_rows = 10;
    app.half_page_down();
    assert_eq!(app.selected, 5);
    app.page_down();
    assert_eq!(app.selected, 15);
    assert_eq!(app.list_offset, 6);
    app.half_page_up();
    assert_eq!(app.selected, 10);
    app.page_up();
    assert_eq!(app.selected, 0);
    assert_eq!(app.list_offset, 0);
    app.visible_rows = 1;
    app.half_page_down();
    assert_eq!(app.selected, 1);
}

#[test]
fn top_and_bottom() {
    let mut app = loaded_app(30);
    app.go_bottom();
    assert_eq!(app.selected, 29);
    assert_eq!(app.list_offset, 10);
    assert_eq!(selected_id(&app), Some(29));
    app.go_top();
    assert_eq!(app.selected, 0);
    assert_eq!(app.list_offset, 0);
}

#[test]
fn moving_in_an_empty_list_keeps_selection_at_zero() {
    let mut app = loaded_app(0);
    app.move_down(20);
    app.page_down();
    app.go_bottom();
    assert_eq!(app.selected, 0);
    assert_eq!(app.selected_item().is_none(), true);
}

#[test]
fn search_query_filters_and_resets_selection() {
    let mut app = loaded_app(12);
    app.move_down_by(5, 20);
    app.push_search_char('1');
    assert_eq!(app.search_query, "1");
    assert_eq!(app.selected, 0);
    // "Artist 1", "Artist 10", "Artist 11"
    assert_eq!(app.filtered_items.len(), 3);
    app.push_search_char('0');
    assert_eq!(app.filtered_items.len(), 1);
    assert_eq!(selected_id(&app), Some(10));
    app.pop_search_char();
    assert_eq!(app.search_query, "1");
    assert_eq!(app.filtered_items.len(), 3);
    app.clear_search();
    assert_eq!(app.search_query, "");
    assert_eq!(app.filtered_items.len(), 12);
}

#[test]
fn typing_and_deleting_restores_the_list() {
    let mut app = loaded_app(12);
    let before: Vec<String> = app.filtered_items.iter().map(|i| i.display_label().to_string()).collect();
    app.push_search_char('x');
    assert!(app.filtered_items.is_empty());
    app.pop_search_char();
    let after: Vec<String> = app.filtered_items.iter().map(|i| i.display_label().to_string()).collect();
    assert_eq!(before, after);
    assert_eq!(app.selected, 0);
}

#[test]
fn popping_an_empty_query_keeps_it_empty() {
    let mut app = loaded_app(3);
    app.pop_search_char();
    assert_eq!(app.search_query, "");
    assert_eq!(app.filtered_items.len(), 3);
}

#[test]
fn scopes_cycle_both_ways() {
    let mut app = App::new(Theme::default());
    app.next_scope();
    assert_eq!(app.search_scope, SearchScope::Artists);
    app.next_scope();
    assert_eq!(app.search_scope, SearchScope::Albums);
    app.next_scope();
    assert_eq!(app.search_scope, SearchScope::Songs);
    app.next_scope();
    assert_eq!(app.search_scope, SearchScope::All);
    app.prev_scope();
    assert_eq!(app.search_scope, SearchScope::Songs);
    app.set_scope(SearchScope::Albums);
    app.prev_scope();
    assert_eq!(app.search_scope, SearchScope::Artists);
}

#[test]
fn scope_restricts_the_list() {
    let mut app = App::new(Theme::default());
    app.set_artists(artists(2));
    app.set_albums(vec![Album { albumid: 7, label: "A".to_string(), artist: vec![], year: None }]);
    app.set_songs(vec![Song {
        songid: 9,
        label: "S".to_string(),
        artist: vec![],
        album: String::new(),
        track: None,
        duration: None,
    }]);
    assert_eq!(app.filtered_items.len(), 4);
    app.set_scope(SearchScope::Albums);
    assert_eq!(app.filtered_items.len(), 1);
    assert_eq!(selected_id(&app), Some(7));
    app.set_scope(SearchScope::Songs);
    assert_eq!(selected_id(&app), Some(9));
}

#[test]
fn repeat_backend_and_mode_toggles() {
    let mut app = App::new(Theme::default());
    app.cycle_repeat();
    assert_eq!(app.repeat_mode, RepeatMode::Track);
    app.cycle_repeat();
    assert_eq!(app.repeat_mode, RepeatMode::Queue);
    app.cycle_repeat();
    assert_eq!(app.repeat_mode, RepeatMode::Off);
    app.toggle_backend();
    assert_eq!(app.backend, PlaybackBackend::Local);
    app.toggle_backend();
    assert_eq!(app.backend, PlaybackBackend::Remote);
    app.toggle_search_mode();
    assert_eq!(app.search_mode, SearchMode::Fuzzy);
    app.toggle_search_mode();
    assert_eq!(app.search_mode, SearchMode::Exact);
}

#[test]
fn fuzzy_mode_reorders_results() {
    let mut app = App::new(Theme::default());
    app.set_artists(vec![
        Artist { artistid: 1, label: "Beatles".to_string() },
        Artist { artistid: 2, label: "Queen".to_string() },
    ]);
    app.toggle_search_mode();
    app.push_search_char('e');
    assert_eq!(selected_id(&app), Some(2));
}

#[test]
fn local_queue_push_and_clear() {
    let mut app = App::new(Theme::default());
    let s = Song { songid: 1, label: "x".to_string(), artist: vec![], album: String::new(), track: None, duration: None };
    app.push_local_queue(s);
    assert_eq!(app.local_queue.len(), 1);
    app.local_queue_pos = 0;
    app.local_fetching = true;
    app.clear_local_queue();
    assert!(app.local_queue.is_empty());
    assert_eq!(app.local_queue_pos, 0);
    assert!(app.local_current_song.is_none());
    assert!(!app.local_fetching);
}

#[test]
fn window_that_would_overflow_is_reported() {
    let mut app = App::new(Theme::default());
    assert!(app.window_fits());
    app.list_offset = usize::MAX;
    assert!(!app.window_fits());
}

#[test]
fn recomputing_keeps_or_clamps_the_selection() {
    let mut app = loaded_app(30);
    app.visible_rows = 5;
    app.move_down_by(25, 5);
    assert_eq!(app.selected, 25);
    assert_eq!(app.list_offset, 21);
    app.apply_filter();
    assert_eq!(app.selected, 25);
    app.all_artists.truncate(10);
    app.apply_filter();
    assert_eq!(app.selected, 9);
    assert!(app.list_offset <= 9 && 9 < app.list_offset + 5);
    app.all_artists.clear();
    app.apply_filter();
    assert_eq!(app.selected, 0);
    assert_eq!(app.list_offset, 0);
}
