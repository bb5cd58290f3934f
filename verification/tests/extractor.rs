use tunnel_share::extractor::{find_scheme, scan_line, Extractor};
use tunnel_share::provider::TunnelProvider;
use tunnel_share::text::{chars_of, has_substring, is_space_char, trim_bounds};

fn extract(message: &str, patterns: &[&str]) -> Option<String> {
    Extractor::new(patterns).feed(message)
}

#[test]
fn strips_path_and_query() {
    assert_eq!(
        extract("visit https://abc.tuns.sh/_sish/console?x=1 now", &[".tuns.sh"]),
        Some("https://abc.tuns.sh".to_string())
    );
}

#[test]
fn keeps_a_bare_host() {
    assert_eq!(extract("https://abc.tuns.sh", &[".tuns.sh"]), Some("https://abc.tuns.sh".to_string()));
    assert_eq!(extract("http://abc.tuns.sh", &[".tuns.sh"]), Some("http://abc.tuns.sh".to_string()));
}

#[test]
fn stops_at_comma_semicolon_and_white_space() {
    assert_eq!(extract("at https://a.tuns.sh, ok", &[".tuns.sh"]), Some("https://a.tuns.sh".to_string()));
    assert_eq!(extract("at https://a.tuns.sh; ok", &[".tuns.sh"]), Some("https://a.tuns.sh".to_string()));
    assert_eq!(extract("at https://a.tuns.sh\tok", &[".tuns.sh"]), Some("https://a.tuns.sh".to_string()));
    assert_eq!(extract("at https://a.tuns.sh\u{a0}ok", &[".tuns.sh"]), Some("https://a.tuns.sh".to_string()));
}

#[test]
fn slash_behind_the_delimiter_does_not_count() {
    assert_eq!(
        extract("https://a.tuns.sh see /docs", &[".tuns.sh"]),
        Some("https://a.tuns.sh".to_string())
    );
}

#[test]
fn ignores_scheme_without_pattern() {
    assert_eq!(extract("see https://example.com/page", &[".tuns.sh"]), None);
}

#[test]
fn ignores_pattern_without_scheme() {
    assert_eq!(extract("abc.tuns.sh is ready", &[".tuns.sh"]), None);
    assert_eq!(extract("http abc.tuns.sh", &[".tuns.sh"]), None);
    assert_eq!(extract("http:/abc.tuns.sh", &[".tuns.sh"]), None);
}

#[test]
fn ignores_blank_and_empty_messages() {
    assert_eq!(extract("", &[".tuns.sh"]), None);
    assert_eq!(extract("   \n\t\n", &[".tuns.sh"]), None);
}

#[test]
fn no_patterns_match_nothing() {
    assert_eq!(extract("https://abc.tuns.sh", &[]), None);
}

#[test]
fn any_pattern_of_the_provider_matches() {
    let pats = TunnelProvider::LocalhostRun.url_patterns();
    assert_eq!(extract("https://x.lhr.life", pats), Some("https://x.lhr.life".to_string()));
    assert_eq!(extract("https://x.lhr.rocks", pats), Some("https://x.lhr.rocks".to_string()));
    assert_eq!(extract("https://x.localhost.run/", pats), Some("https://x.localhost.run".to_string()));
    assert_eq!(extract("https://x.tuns.sh", pats), None);
}

#[test]
fn finds_the_line_in_a_message_of_many() {
    let message = "connecting...\r\n   tunnel: https://abc.tuns.sh/path   \r\nbye\r\n";
    assert_eq!(extract(message, &[".tuns.sh"]), Some("https://abc.tuns.sh".to_string()));
}

#[test]
fn takes_the_first_matching_line() {
    let message = "https://first.tuns.sh\nhttps://second.tuns.sh";
    assert_eq!(extract(message, &[".tuns.sh"]), Some("https://first.tuns.sh".to_string()));
}

#[test]
fn scheme_and_pattern_must_share_a_line() {
    assert_eq!(extract("https://example.com\nabc.tuns.sh", &[".tuns.sh"]), None);
}

#[test]
fn takes_the_first_marker_of_the_line() {
    assert_eq!(
        extract("http://a.example and https://b.tuns.sh", &[".tuns.sh"]),
        Some("http://a.example".to_string())
    );
}

#[test]
fn the_url_starts_at_a_whole_marker() {
    assert_eq!(
        extract("the http tunnel is at https://abc.tuns.sh", &[".tuns.sh"]),
        Some("https://abc.tuns.sh".to_string())
    );
}

#[test]
fn counts_characters_not_bytes() {
    assert_eq!(
        extract("→ ünïcode ← https://abc.tuns.sh/ü →", &[".tuns.sh"]),
        Some("https://abc.tuns.sh".to_string())
    );
}

#[test]
fn emits_once_per_session() {
    let mut session = Extractor::new(&[".tuns.sh"]);
    assert!(!session.has_emitted());
    assert_eq!(session.feed("nothing here"), None);
    assert!(!session.has_emitted());
    assert_eq!(session.feed("https://one.tuns.sh"), Some("https://one.tuns.sh".to_string()));
    assert!(session.has_emitted());
    assert_eq!(session.feed("https://two.tuns.sh"), None);
    assert_eq!(session.feed("https://one.tuns.sh\nhttps://three.tuns.sh"), None);
    assert!(session.has_emitted());
}

#[test]
fn emits_once_over_many_matching_messages() {
    let mut session = Extractor::new(TunnelProvider::Pico.url_patterns());
    let mut urls = Vec::new();
    for i in 0..20 {
        if let Some(url) = session.feed(&format!("line\nhttps://host{}.tuns.sh/x\nhttps://other.tuns.sh", i)) {
            urls.push(url);
        }
    }
    assert_eq!(urls, vec!["https://host0.tuns.sh".to_string()]);
}

#[test]
fn scan_line_gives_bounds_within_the_line() {
    let line = chars_of("  go to https://abc.tuns.sh/x now ");
    let pats = vec![chars_of(".tuns.sh")];
    assert_eq!(scan_line(&line, &pats), Some((8, 27)));
    assert_eq!(scan_line(&chars_of("nothing"), &pats), None);
}

#[test]
fn find_scheme_gives_index_and_width() {
    assert_eq!(find_scheme(&chars_of("ab http://x")), (3, 7));
    assert_eq!(find_scheme(&chars_of("ab https://x")), (3, 8));
    assert_eq!(find_scheme(&chars_of("abc")).0, 3);
}

#[test]
fn white_space_is_unicode_white_space() {
    for c in ['\t', '\n', '\u{b}', '\u{c}', '\r', ' ', '\u{85}', '\u{a0}', '\u{1680}', '\u{2000}',
        '\u{200a}', '\u{2028}', '\u{2029}', '\u{202f}', '\u{205f}', '\u{3000}'] {
        assert!(is_space_char(c), "{:?}", c);
    }
    for c in ['a', '0', '\u{0}', '\u{8}', '\u{e}', '\u{200b}', '\u{feff}', '/', ','] {
        assert!(!is_space_char(c), "{:?}", c);
    }
    for n in 0u32..0x11000 {
        if let Some(c) = char::from_u32(n) {
            assert_eq!(is_space_char(c), c.is_whitespace(), "{:x}", n);
        }
    }
}

#[test]
fn trim_bounds_match_trim() {
    for s in ["", "   ", "a", " a", "a ", "\t a b \r\n", "\u{3000}x\u{a0}"] {
        let v = chars_of(s);
        let (lo, hi) = trim_bounds(&v);
        let t: String = v[lo..hi].iter().collect();
        assert_eq!(t, s.trim(), "{:?}", s);
    }
}

#[test]
fn substring_search() {
    assert!(has_substring(&chars_of("hello"), &chars_of("ell")));
    assert!(has_substring(&chars_of("hello"), &chars_of("")));
    assert!(has_substring(&chars_of("hello"), &chars_of("hello")));
    assert!(has_substring(&chars_of("hello"), &chars_of("o")));
    assert!(!has_substring(&chars_of("hello"), &chars_of("lo!")));
    assert!(!has_substring(&chars_of(""), &chars_of("a")));
    assert!(has_substring(&chars_of(""), &chars_of("")));
}
