use smtc2web_dev::config::{
    config_process_filter, effective_filter, parse_theme_info, requested_framework, theme_banner,
    DEFAULT_FILTER,
};
use smtc2web_dev::media::filter::{matches_pattern, matches_process_filter};

#[test]
fn blank_filters_and_the_star_admit_all() {
    for filter in ["", "*", "  ", "\n \t", " * \r\n"] {
        assert!(matches_process_filter(filter, "id", "name"), "{:?}", filter);
        assert!(matches_process_filter(filter, "", ""), "{:?}", filter);
    }
}

#[test]
fn any_line_may_admit() {
    let filter = "spotify\n  Firefox \r\n\nvlc";
    assert!(matches_process_filter(filter, "org.mpris.MediaPlayer2.Spotify", "x"));
    assert!(matches_process_filter(filter, "x", "FIREFOX browser"));
    assert!(matches_process_filter(filter, "a.VLC.b", ""));
    assert!(!matches_process_filter(filter, "chrome", "Chromium"));
    assert!(!matches_process_filter(filter, "", ""));
}

#[test]
fn two_parts_admit_what_either_admits() {
    for (id, name) in [("alpha", ""), ("", "beta"), ("gamma", "delta")] {
        let both = matches_process_filter("alpha\nbeta", id, name);
        let either =
            matches_process_filter("alpha", id, name) || matches_process_filter("beta", id, name);
        assert_eq!(both, either);
    }
}

#[test]
fn blank_lines_in_a_part_admit_nobody() {
    let above = " \n alpha \n\n \t";
    let below = "\r\n\n  beta\n ";
    let both = format!("{}\n{}", above, below);
    for (id, name) in [("alpha", ""), ("", "beta"), ("gamma", "delta"), ("", "")] {
        assert_eq!(
            matches_process_filter(&both, id, name),
            matches_process_filter(above, id, name) || matches_process_filter(below, id, name)
        );
    }
    assert!(!matches_process_filter(&both, "gamma", "delta"));
}

#[test]
fn a_star_beside_other_lines_is_a_pattern() {
    assert!(!matches_process_filter("*\nspotify", "firefox", "firefox"));
    assert!(matches_process_filter("*\nspotify", "a*b", "firefox"));
}

#[test]
fn letters_outside_ascii_are_lowered_too() {
    assert!(matches_process_filter("ÄÖ", "xäöy", ""));
    assert!(matches_process_filter("网易云", "", "网易云音乐"));
}

#[test]
fn patterns_are_taken_as_they_stand() {
    assert!(matches_pattern("fox", "firefox", ""));
    assert!(!matches_pattern("Fox", "firefox", ""));
    assert!(!matches_pattern("", "firefox", "firefox"));
}

#[test]
fn the_command_line_comes_before_the_configuration() {
    let some = |s: &str| Some(s.to_string());
    assert_eq!(effective_filter(some("a"), some("b")), "a");
    assert_eq!(effective_filter(None, some("b")), "b");
    assert_eq!(effective_filter(some(""), some("b")), "");
    assert_eq!(effective_filter(None, None), "*");
    assert_eq!(DEFAULT_FILTER, "*");
    assert!(matches_process_filter(&effective_filter(None, None), "any", "player"));
}

#[test]
fn the_filter_is_read_from_the_configuration() {
    assert_eq!(
        config_process_filter("process_filter = \"spotify\"\nport = 1\n"),
        Some("spotify".to_string())
    );
    assert_eq!(config_process_filter("process_filter = 3\n"), None);
    assert_eq!(config_process_filter("[other]\nprocess_filter = \"x\"\n"), None);
    assert_eq!(config_process_filter("not toml"), None);
}

#[test]
fn themes_are_described_in_their_section_or_at_the_top() {
    let info = |a: &str, b: &str, c: &str| Some((a.to_string(), b.to_string(), c.to_string()));
    assert_eq!(
        parse_theme_info("[smtc2web.theme]\nname = \"test\"\n"),
        info("test", "0.0.0", "Unknown")
    );
    assert_eq!(
        parse_theme_info("name = \"n\"\nversion = \"1.2.3\"\nauthor = \"a\"\n"),
        info("n", "1.2.3", "a")
    );
    assert_eq!(
        parse_theme_info("name = \"outer\"\n[smtc2web.theme]\nversion = \"9\"\n"),
        info("Unknown", "9", "Unknown")
    );
    assert_eq!(
        parse_theme_info("name = \"outer\"\n[smtc2web]\nx = 1\n"),
        info("outer", "0.0.0", "Unknown")
    );
    assert_eq!(parse_theme_info("name = 5\n"), info("Unknown", "0.0.0", "Unknown"));
    assert_eq!(parse_theme_info("name = "), None);
}

#[test]
fn the_banner_names_the_theme() {
    assert_eq!(
        theme_banner("test", "0.1.0", "me"),
        "======================================== test v0.1.0 by me"
    );
}

#[test]
fn forcing_vite_overrides_the_framework() {
    assert_eq!(requested_framework(true, "next"), "vite");
    assert_eq!(requested_framework(false, "next"), "next");
    assert_eq!(requested_framework(true, "next"), requested_framework(false, "vite"));
}
