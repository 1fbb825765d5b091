use koditerm::config::{
    check_config, color_opt_parses, color_parses, default_config, parse_color, parse_color_opt, resolve,
    sort_names, try_parse_color, Color, ConfigError, FullConfig, KodiSystem, ResolveError, Theme, ThemeConfig,
};

fn system(host: &str, default: bool) -> KodiSystem {
    KodiSystem {
        host: host.to_string(),
        port: 8080,
        username: "kodi".to_string(),
        password: "secret".to_string(),
        default,
    }
}

fn config(systems: Vec<(&str, bool)>) -> FullConfig {
    FullConfig {
        theme: ThemeConfig::default(),
        systems: systems.into_iter().map(|(n, d)| (n.to_string(), system(n, d))).collect(),
    }
}

#[test]
fn base_url_has_host_and_port() {
    assert_eq!(system("192.168.1.10", false).base_url(), "http://192.168.1.10:8080");
    let s = KodiSystem { host: "kodi.local".to_string(), port: 80, username: String::new(), password: String::new(), default: true };
    assert_eq!(s.base_url(), "http://kodi.local:80");
}

#[test]
fn named_colours_ignore_case_and_spaces() {
    assert_eq!(parse_color("Red"), Color::Red);
    assert_eq!(parse_color("  DarkGrey \t"), Color::DarkGray);
    assert_eq!(parse_color("dark_gray"), Color::DarkGray);
    assert_eq!(parse_color("grey"), Color::Gray);
    assert_eq!(parse_color("LIGHT_CYAN"), Color::LightCyan);
    assert_eq!(parse_color("white"), Color::White);
}

#[test]
fn hexadecimal_colours() {
    assert_eq!(parse_color("#7aa2f7"), Color::Rgb(0x7a, 0xa2, 0xf7));
    assert_eq!(parse_color("7AA2F7"), Color::Rgb(0x7a, 0xa2, 0xf7));
    assert_eq!(parse_color(" #FF0080 "), Color::Rgb(255, 0, 128));
    assert_eq!(parse_color("#+f+f+f"), Color::Rgb(15, 15, 15));
}

#[test]
fn unknown_colours_are_the_terminal_default() {
    assert_eq!(parse_color("chartreuse"), Color::Reset);
    assert_eq!(parse_color("#12345"), Color::Reset);
    assert_eq!(parse_color("#gg0000"), Color::Reset);
    assert_eq!(parse_color("#1234567"), Color::Reset);
    assert_eq!(parse_color(""), Color::Reset);
}

#[test]
fn hex_text_that_cannot_be_split_is_refused() {
    // "a" + "é" + "123" is six bytes, but byte 2 falls inside "é".
    assert!(!color_parses("#a\u{e9}123"));
    assert_eq!(try_parse_color("#a\u{e9}123"), None);
    // "é" + "1234" splits at bytes 2 and 4, and "é" is no hex digit.
    assert!(color_parses("#\u{e9}1234"));
    assert_eq!(try_parse_color("#\u{e9}1234"), Some(Color::Reset));
}

#[test]
fn optional_colours() {
    assert_eq!(parse_color_opt("None"), None);
    assert_eq!(parse_color_opt(" transparent "), None);
    assert_eq!(parse_color_opt("blue"), Some(Color::Blue));
    assert_eq!(parse_color_opt("nothing"), Some(Color::Reset));
    assert!(color_opt_parses("none"));
    assert!(!color_opt_parses("#a\u{e9}123"));
}

fn same_theme(a: &Theme, b: &Theme) -> bool {
    a.dim == b.dim
        && a.accent == b.accent
        && a.highlight == b.highlight
        && a.text == b.text
        && a.selected_fg == b.selected_fg
        && a.selected_bg == b.selected_bg
        && a.tag_artist == b.tag_artist
        && a.tag_album == b.tag_album
        && a.tag_song == b.tag_song
        && a.tag_artist_label == b.tag_artist_label
        && a.tag_album_label == b.tag_album_label
        && a.tag_song_label == b.tag_song_label
}

#[test]
fn default_theme_is_tokyo_night_storm() {
    let t = Theme::default();
    assert_eq!(t.dim, Color::Rgb(0x56, 0x5f, 0x89));
    assert_eq!(t.accent, Color::Rgb(0x7a, 0xa2, 0xf7));
    assert_eq!(t.highlight, Color::Rgb(0xe0, 0xaf, 0x68));
    assert_eq!(t.text, Color::Rgb(0xc0, 0xca, 0xf5));
    assert_eq!(t.selected_fg, Color::Rgb(0x1d, 0x20, 0x2f));
    assert_eq!(t.selected_bg, Color::Rgb(0x7a, 0xa2, 0xf7));
    assert_eq!(t.tag_artist, None);
    assert_eq!(t.tag_artist_label, "\u{1F3A4}");
    assert_eq!(t.tag_album_label, "\u{1F4BF}");
    assert_eq!(t.tag_song_label, "\u{1F3B5}");
}

#[test]
fn empty_theme_config_resolves_to_documented_defaults() {
    let c = ThemeConfig::default();
    assert!(c.colors_parse());
    let t = c.resolve();
    assert_eq!(t.dim, Color::Gray);
    assert_eq!(t.accent, Color::Cyan);
    assert_eq!(t.highlight, Color::Yellow);
    assert_eq!(t.text, Color::White);
    assert_eq!(t.selected_fg, Color::Black);
    assert_eq!(t.selected_bg, Color::White);
    assert_eq!(t.tag_artist, Some(Color::Magenta));
    assert_eq!(t.tag_album, Some(Color::Blue));
    assert_eq!(t.tag_song, Some(Color::Green));
    assert_eq!(t.tag_artist_label, "ART");
    assert_eq!(t.tag_album_label, "ALB");
    assert_eq!(t.tag_song_label, "SNG");
}

#[test]
fn theme_config_overrides_fields() {
    let c = ThemeConfig {
        dim: Some("red".to_string()),
        tag_artist: Some("none".to_string()),
        tag_album: Some("green".to_string()),
        tag_song_label: Some("S".to_string()),
        ..ThemeConfig::default()
    };
    let t = c.resolve();
    assert_eq!(t.dim, Color::Red);
    assert_eq!(t.accent, Color::Cyan);
    assert_eq!(t.tag_song, Some(Color::Green));
    assert_eq!(t.tag_artist, None);
    assert_eq!(t.tag_album, Some(Color::Green));
    assert_eq!(t.tag_song_label, "S");
    let bad = ThemeConfig { text: Some("#a\u{e9}123".to_string()), ..ThemeConfig::default() };
    assert!(!bad.colors_parse());
    assert!(bad.try_resolve().is_none());
}

#[test]
fn default_configuration() {
    let cfg = default_config();
    assert_eq!(cfg.systems.len(), 1);
    assert_eq!(cfg.systems[0].0, "my-kodi");
    let s = &cfg.systems[0].1;
    assert_eq!(s.host, "192.168.1.1");
    assert_eq!(s.port, 80);
    assert_eq!(s.username, "kodi");
    assert_eq!(s.password, "kodi");
    assert!(s.default);
    assert_eq!(cfg.theme.dim.as_deref(), Some("#565f89"));
    assert_eq!(cfg.theme.tag_song.as_deref(), Some("none"));
    assert!(cfg.names_unique());
    let t = cfg.theme.resolve();
    assert!(same_theme(&t, &Theme { tag_artist: None, tag_album: None, tag_song: None, ..Theme::default() }));
}

#[test]
fn resolve_picks_the_named_system() {
    let cfg = config(vec![("living", false), ("bedroom", true)]);
    assert!(cfg.names_unique());
    match resolve(&cfg, Some("living")) {
        Ok((name, s)) => {
            assert_eq!(name, "living");
            assert_eq!(s.host, "living");
        },
        Err(e) => panic!("unexpected error {:?}", e),
    }
}

#[test]
fn resolve_picks_the_default_without_a_name() {
    let cfg = config(vec![("living", false), ("bedroom", true), ("attic", true)]);
    match resolve(&cfg, None) {
        Ok((name, _)) => assert_eq!(name, "bedroom"),
        Err(e) => panic!("unexpected error {:?}", e),
    }
}

#[test]
fn resolve_unknown_name_lists_sorted_names() {
    let cfg = config(vec![("living", false), ("bedroom", true)]);
    match resolve(&cfg, Some("attic")) {
        Err(ResolveError::NoSuchSystem { name, available }) => {
            assert_eq!(name, "attic");
            assert_eq!(available, vec!["bedroom".to_string(), "living".to_string()]);
            let e = ResolveError::NoSuchSystem { name, available };
            assert_eq!(e.message("/cfg"), "no system named 'attic' (available: bedroom, living)");
        },
        other => panic!("unexpected {:?}", other.map(|(n, _)| n.to_string())),
    }
}

#[test]
fn resolve_without_default_explains_usage() {
    let cfg = config(vec![("b", false), ("a", false)]);
    match resolve(&cfg, None) {
        Err(e) => {
            assert!(matches!(e, ResolveError::NoDefault { .. }));
            assert_eq!(
                e.message("/home/u/.config/koditerm/config.toml"),
                "No default system configured.\n\nUsage:\n   koditerm --system <name>    connect to a named system\n\nAvailable systems: a, b\n\nTip: add 'default = true' to one of your systems in\n   /home/u/.config/koditerm/config.toml"
            );
        },
        Ok((n, _)) => panic!("unexpected system {}", n),
    }
}

#[test]
fn duplicate_names_are_detected() {
    let cfg = config(vec![("a", false), ("a", true)]);
    assert!(!cfg.names_unique());
}

#[test]
fn configuration_needs_a_system() {
    let empty = config(vec![]);
    assert_eq!(check_config(&empty), Err(ConfigError::NoSystems));
    assert_eq!(ConfigError::NoSystems.message(), "config contains no systems");
    assert_eq!(check_config(&config(vec![("x", false)])), Ok(()));
}

#[test]
fn names_sort_in_byte_order() {
    let names = vec!["b".to_string(), "B".to_string(), "ab".to_string(), "a".to_string()];
    assert_eq!(sort_names(&names), vec!["B".to_string(), "a".to_string(), "ab".to_string(), "b".to_string()]);
}
