use koditerm::app::{App, InputMode, PlaybackBackend, SearchMode, SearchScope};
use koditerm::config::Theme;
use koditerm::keys::{handle_key, key_allowed, play_selected, queue_selected, Action, KeyCode, KeyEvent, KeyModifiers};
use koditerm::kodi::{Album, Artist, Song};

const NONE: KeyModifiers = KeyModifiers { shift: false, control: false, alt: false, other: false };
const CTRL: KeyModifiers = KeyModifiers { shift: false, control: true, alt: false, other: false };
const ALT: KeyModifiers = KeyModifiers { shift: false, control: false, alt: true, other: false };

fn key(c: char) -> KeyEvent {
    KeyEvent { code: KeyCode::Char(c), modifiers: NONE }
}

fn code(code: KeyCode) -> KeyEvent {
    KeyEvent { code, modifiers: NONE }
}

fn press(app: &mut App, k: KeyEvent) -> Option<Action> {
    assert!(key_allowed(app, k));
    handle_key(app, k)
}

fn library() -> App {
    let mut app = App::new(Theme::default());
    app.set_artists((0..40).map(|i| Artist { artistid: 100 + i, label: format!("Artist {i}") }).collect());
    app.set_albums(vec![Album { albumid: 7, label: "Album".to_string(), artist: vec![], year: None }]);
    app.set_songs(vec![Song {
        songid: 9,
        label: "Song".to_string(),
        artist: vec![],
        album: String::new(),
        track: None,
        duration: None,
    }]);
    app
}

#[test]
fn quit_and_backend_keys() {
    let mut app = library();
    assert_eq!(press(&mut app, key('q')), Some(Action::Quit));
    assert_eq!(press(&mut app, key('L')), Some(Action::ToggleBackend));
    assert_eq!(press(&mut app, key('r')), Some(Action::ToggleRepeat));
}

#[test]
fn counts_multiply_motions() {
    let mut app = library();
    assert_eq!(press(&mut app, key('1')), None);
    assert_eq!(press(&mut app, key('2')), None);
    assert_eq!(app.pending_count, "12");
    assert_eq!(press(&mut app, key('j')), None);
    assert_eq!(app.selected, 12);
    assert_eq!(app.pending_count, "");
    assert_eq!(press(&mut app, key('k')), None);
    assert_eq!(app.selected, 11);
    assert_eq!(press(&mut app, code(KeyCode::Down)), None);
    assert_eq!(app.selected, 12);
}

#[test]
fn g_g_goes_to_the_top_and_capital_g_to_the_bottom() {
    let mut app = library();
    press(&mut app, key('G'));
    assert_eq!(app.selected, 41);
    press(&mut app, key('g'));
    assert!(app.pending_g);
    assert_eq!(app.selected, 41);
    press(&mut app, key('g'));
    assert!(!app.pending_g);
    assert_eq!(app.selected, 0);
    assert_eq!(app.list_offset, 0);
}

#[test]
fn slash_starts_a_search_and_escape_ends_it() {
    let mut app = library();
    press(&mut app, key('/'));
    assert_eq!(app.input_mode, InputMode::Search);
    press(&mut app, key('3'));
    press(&mut app, key('9'));
    assert_eq!(app.search_query, "39");
    assert_eq!(app.filtered_items.len(), 1);
    press(&mut app, code(KeyCode::Backspace));
    assert_eq!(app.search_query, "3");
    press(&mut app, code(KeyCode::Tab));
    assert_eq!(app.search_mode, SearchMode::Fuzzy);
    press(&mut app, code(KeyCode::F(2)));
    assert_eq!(app.search_scope, SearchScope::Artists);
    press(&mut app, code(KeyCode::Esc));
    assert_eq!(app.input_mode, InputMode::Normal);
    assert_eq!(app.search_query, "");
}

#[test]
fn enter_plays_the_selection_on_kodi() {
    let mut app = library();
    press(&mut app, key('/'));
    for c in "39".chars() {
        press(&mut app, key(c));
    }
    assert_eq!(press(&mut app, KeyEvent { code: KeyCode::Enter, modifiers: ALT }), Some(Action::QueueArtist(139)));
    assert_eq!(app.input_mode, InputMode::Search);
    assert_eq!(press(&mut app, code(KeyCode::Enter)), Some(Action::PlayArtist(139)));
    assert_eq!(app.input_mode, InputMode::Normal);
}

#[test]
fn enter_plays_locally_in_local_mode() {
    let mut app = library();
    app.toggle_backend();
    assert_eq!(app.backend, PlaybackBackend::Local);
    press(&mut app, key('G'));
    assert_eq!(play_selected(&app), Some(Action::LocalPlaySong(9)));
    assert_eq!(queue_selected(&app), Some(Action::LocalQueueSong(9)));
    assert_eq!(press(&mut app, key(' ')), Some(Action::LocalPlaySong(9)));
}

#[test]
fn space_pauses_the_kodi_player() {
    let mut app = library();
    assert_eq!(press(&mut app, key(' ')), Some(Action::PlayArtist(100)));
    app.status.player_id = Some(1);
    assert_eq!(press(&mut app, key(' ')), Some(Action::TogglePause(1)));
    assert_eq!(press(&mut app, key('s')), Some(Action::Stop(1)));
    assert_eq!(press(&mut app, key('n')), Some(Action::Next(1)));
    assert_eq!(press(&mut app, key('p')), Some(Action::Prev(1)));
    press(&mut app, key('3'));
    assert_eq!(press(&mut app, key('n')), Some(Action::SkipForward(3)));
    press(&mut app, key('2'));
    assert_eq!(press(&mut app, key('p')), Some(Action::SkipBack(2)));
}

#[test]
fn skips_without_a_player_do_nothing() {
    let mut app = library();
    assert_eq!(press(&mut app, key('n')), None);
    assert_eq!(press(&mut app, key('s')), None);
    app.toggle_backend();
    assert_eq!(press(&mut app, key('n')), None);
    assert_eq!(press(&mut app, key('s')), Some(Action::LocalStop));
}

#[test]
fn volume_keys_step_and_stop_at_the_ends() {
    let mut app = library();
    app.status.volume = 97;
    assert_eq!(press(&mut app, key('+')), Some(Action::Volume(100)));
    assert_eq!(press(&mut app, KeyEvent { code: KeyCode::Char('='), modifiers: ALT }), Some(Action::Volume(98)));
    assert_eq!(press(&mut app, key('-')), Some(Action::Volume(92)));
    app.status.volume = 3;
    assert_eq!(press(&mut app, key('-')), Some(Action::Volume(0)));
    assert_eq!(press(&mut app, KeyEvent { code: KeyCode::Char('-'), modifiers: ALT }), Some(Action::Volume(2)));
    app.toggle_backend();
    app.local_volume = 50;
    assert_eq!(press(&mut app, key('=')), Some(Action::LocalVolume(55)));
}

#[test]
fn overlays_take_the_next_key() {
    let mut app = library();
    press(&mut app, key('?'));
    assert!(app.show_help);
    assert_eq!(press(&mut app, key('q')), None);
    assert!(!app.show_help);
    press(&mut app, key('i'));
    assert!(app.show_track_info);
    assert_eq!(press(&mut app, key('j')), None);
    assert!(!app.show_track_info);
    assert_eq!(app.selected, 0);
}

#[test]
fn control_keys_move_by_half_pages_and_scopes() {
    let mut app = library();
    press(&mut app, KeyEvent { code: KeyCode::Char('d'), modifiers: CTRL });
    assert_eq!(app.selected, 10);
    press(&mut app, KeyEvent { code: KeyCode::Char('u'), modifiers: CTRL });
    assert_eq!(app.selected, 0);
    press(&mut app, KeyEvent { code: KeyCode::Char('n'), modifiers: CTRL });
    assert_eq!(app.search_scope, SearchScope::Artists);
    press(&mut app, KeyEvent { code: KeyCode::Char('p'), modifiers: CTRL });
    assert_eq!(app.search_scope, SearchScope::All);
    press(&mut app, code(KeyCode::F(4)));
    assert_eq!(app.search_scope, SearchScope::Songs);
}

#[test]
fn huge_count_is_refused_before_handling() {
    let mut app = library();
    app.selected = 5;
    app.pending_count = usize::MAX.to_string();
    assert!(!key_allowed(&app, key('j')));
    assert!(key_allowed(&app, key('k')));
    app.status.volume = u32::MAX;
    assert!(!key_allowed(&app, key('+')));
}
