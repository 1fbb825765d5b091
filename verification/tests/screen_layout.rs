use koditerm::app::{App, InputMode, RepeatMode, SearchMode, SearchScope};
use koditerm::config::Theme;
use koditerm::kodi::{CurrentItem, Song};
use koditerm::layout::{
    bottom_bar, center_rect, empty_library_message, idle_message, info_popup_width, item_info_rows,
    local_repeat_mark, popup_height, remote_repeat_mark, progress_text, queue_offset, queue_row_number, queue_title, row_distance,
    row_number, scope_tab, search_title, song_info_rows, status_line, truncate_label, visible_end, Rect,
};

#[test]
fn popups_are_centred_and_cut_to_the_area() {
    let area = Rect { x: 0, y: 0, width: 100, height: 40 };
    assert_eq!(center_rect(69, 30, area), Rect { x: 15, y: 5, width: 69, height: 30 });
    assert_eq!(center_rect(120, 50, area), Rect { x: 0, y: 0, width: 100, height: 40 });
    let inner = Rect { x: 10, y: 3, width: 21, height: 9 };
    assert_eq!(center_rect(10, 4, inner), Rect { x: 15, y: 5, width: 10, height: 4 });
}

#[test]
fn track_info_popup_size() {
    assert_eq!(info_popup_width(120), 90);
    assert_eq!(info_popup_width(70), 60);
    assert_eq!(info_popup_width(50), 50);
    assert_eq!(popup_height(8, 40), 10);
    assert_eq!(popup_height(50, 40), 40);
}

#[test]
fn queue_window_keeps_the_current_song_visible() {
    assert_eq!(queue_offset(0, 10, 30), 0);
    assert_eq!(queue_offset(12, 10, 30), 7);
    assert_eq!(queue_offset(28, 10, 30), 20);
    assert_eq!(queue_offset(3, 10, 5), 0);
    assert_eq!(visible_end(20, 10, 25), 25);
    assert_eq!(visible_end(0, 10, 25), 10);
    assert_eq!(row_distance(3, 7), 4);
    assert_eq!(row_distance(7, 3), 4);
}

#[test]
fn row_numbers_are_right_aligned() {
    assert_eq!(row_number(0), "  0 ");
    assert_eq!(row_number(42), " 42 ");
    assert_eq!(row_number(123), "123 ");
    assert_eq!(row_number(12345), "12345 ");
    assert_eq!(queue_row_number(5, 2, true), "  3 ");
    assert_eq!(queue_row_number(5, 2, false), "  6 ");
}

#[test]
fn queue_titles() {
    assert_eq!(queue_title(0, true, 0), " Queue ");
    assert_eq!(queue_title(8, true, 2), " Queue 3/8 ");
    assert_eq!(queue_title(8, false, 2), " Queue 0/8 ");
}

#[test]
fn long_labels_are_cut_with_an_ellipsis() {
    assert_eq!(truncate_label("Short", 28), "Short");
    assert_eq!(truncate_label("exactly", 7), "exactly");
    assert_eq!(truncate_label("A rather long song title", 10), "A rather \u{2026}");
    assert_eq!(truncate_label("abc", 0), "\u{2026}");
    assert_eq!(truncate_label("caf\u{e9} au lait", 6), "caf\u{e9} \u{2026}");
    // Widths count characters: four accented letters fit five columns.
    assert_eq!(truncate_label("\u{e9}\u{e9}\u{e9}\u{e9}", 5), "\u{e9}\u{e9}\u{e9}\u{e9}");
    let long: String = std::iter::repeat('\u{e9}').take(31).collect();
    let cut: String = std::iter::repeat('\u{e9}').take(25).chain(std::iter::once('\u{2026}')).collect();
    assert_eq!(truncate_label(&long, 26), cut);
}

#[test]
fn captions() {
    assert_eq!(empty_library_message(true, ""), "Loading\u{2026}");
    assert_eq!(empty_library_message(false, ""), "No items found in library.");
    assert_eq!(empty_library_message(false, "zz"), "No matches.");
    assert_eq!(idle_message(true), "Loading library\u{2026}");
    assert_eq!(idle_message(false), "Nothing playing. Press / to search, Enter to play.");
    assert_eq!(local_repeat_mark(RepeatMode::Off), "");
    assert_eq!(local_repeat_mark(RepeatMode::Track), " \u{21bb}1");
    assert_eq!(local_repeat_mark(RepeatMode::Queue), " \u{21bb}");
    assert_eq!(remote_repeat_mark("one"), " \u{21bb}1");
    assert_eq!(remote_repeat_mark("all"), " \u{21bb}");
    assert_eq!(remote_repeat_mark("off"), "");
}

#[test]
fn progress_line() {
    assert_eq!(progress_text(65, 240, false, 7), "1:05 / 4:00   \u{1F50A}  7%");
    assert_eq!(progress_text(3600, 3725, true, 100), "1:00:00 / 1:02:05   \u{1F507}100%");
}

#[test]
fn scope_tabs_and_search_title() {
    assert_eq!(scope_tab(SearchScope::All, "A", "B", "C"), "All [F1]");
    assert_eq!(scope_tab(SearchScope::Albums, "A", "B", "C"), "B Albums [F3]");
    assert_eq!(scope_tab(SearchScope::Songs, "A", "B", "C"), "C Songs [F4]");
    assert_eq!(search_title(SearchScope::Artists, SearchMode::Fuzzy), " Search (artists, fuzzy) ");
    assert_eq!(search_title(SearchScope::All, SearchMode::Exact), " Search (all, exact) ");
}

#[test]
fn status_lines() {
    assert_eq!(status_line(&None, 12, ""), "12 items");
    assert_eq!(status_line(&Some("Hello".to_string()), 12, ""), "Hello");
    assert_eq!(status_line(&None, 0, "42"), "[42] 0 items");
}

#[test]
fn bottom_bar_by_input_mode() {
    let mut app = App::new(Theme::default());
    app.status_message = None;
    let (title, content, hint) = bottom_bar(&app);
    assert_eq!(title, " koditerm ");
    assert_eq!(content, "0 items");
    assert!(hint.starts_with(" /: search"));
    app.input_mode = InputMode::Search;
    app.search_query = "abba".to_string();
    let (title, content, hint) = bottom_bar(&app);
    assert_eq!(title, " Search (all, exact) ");
    assert_eq!(content, "abba_");
    assert_eq!(hint, " ESC: cancel  ENTER: play  Alt+ENTER: queue  TAB: fuzzy/exact  F1-F4: scope ");
    app.input_mode = InputMode::Command;
    let (title, content, hint) = bottom_bar(&app);
    assert_eq!(title, " Command ");
    assert_eq!(content, "abba");
    assert_eq!(hint, "");
}

#[test]
fn track_information_rows() {
    let s = Song {
        songid: 1,
        label: "Help!".to_string(),
        artist: vec!["John".to_string(), "Paul".to_string()],
        album: "Help!".to_string(),
        track: Some(1),
        duration: Some(138),
    };
    let rows = song_info_rows(&s);
    assert_eq!(
        rows,
        vec![
            ("Artist       ".to_string(), "John, Paul".to_string()),
            ("Album        ".to_string(), "Help!".to_string()),
            ("Track        ".to_string(), "1".to_string()),
            ("Duration     ".to_string(), "2:18".to_string()),
        ]
    );
    let bare = Song { track: None, duration: None, ..s };
    assert_eq!(song_info_rows(&bare).len(), 2);
    let item = CurrentItem { title: "T".to_string(), artist: String::new(), album: "LP".to_string(), duration: 61 };
    assert_eq!(
        item_info_rows(&item),
        vec![("Album        ".to_string(), "LP".to_string()), ("Duration     ".to_string(), "1:01".to_string())]
    );
}
