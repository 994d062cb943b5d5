use ryu_teams::auth::{authorize, bearer_ok, ct_eq};
use ryu_teams::settings::{listen_port, parse_port, shared_token, DEFAULT_PORT};
use ryu_teams::text::{is_blank, is_white_space, same_text, strip_prefix, trimmed};

#[test]
fn bearer_ok_matches_only_exact_nonempty_token() {
    assert!(bearer_ok(Some("secret"), Some("secret")));
    assert!(!bearer_ok(Some("secret"), Some("other")));
    assert!(!bearer_ok(Some("secre"), Some("secret")));
    assert!(!bearer_ok(None, Some("secret")));
}

#[test]
fn bearer_ok_is_fail_closed_without_expected() {
    assert!(!bearer_ok(Some("secret"), None));
    assert!(!bearer_ok(Some(""), Some("")));
    assert!(!bearer_ok(None, None));
}

#[test]
fn only_a_bearer_header_with_the_token_is_let_in() {
    assert!(authorize(Some("Bearer secret"), Some("secret")));
    assert!(!authorize(Some("bearer secret"), Some("secret")));
    assert!(!authorize(Some("Bearer  secret"), Some("secret")));
    assert!(!authorize(Some("Bearer secret "), Some("secret")));
    assert!(!authorize(Some("secret"), Some("secret")));
    assert!(!authorize(Some("Bearer "), Some("")));
    assert!(!authorize(None, Some("secret")));
    assert!(!authorize(Some("Bearer secret"), None));
}

#[test]
fn bytes_compare_equal_only_when_all_are() {
    assert!(ct_eq(b"", b""));
    assert!(ct_eq(b"abc", b"abc"));
    assert!(!ct_eq(b"abc", b"abd"));
    assert!(!ct_eq(b"xbc", b"abc"));
    assert!(!ct_eq(b"abc", b"ab"));
    assert!(!ct_eq(b"ab", b"abc"));
    assert!(!ct_eq(b"ab\0", b"ab"));
    assert!(!ct_eq(b"ab", b"ab\0"));
    assert!(!ct_eq(b"", b"a"));
    assert!(!ct_eq(b"a", b""));
}

#[test]
fn port_comes_from_the_environment_or_is_the_default() {
    assert_eq!(DEFAULT_PORT, 7995);
    assert_eq!(listen_port(None), 7995);
    assert_eq!(listen_port(Some("8080")), 8080);
    assert_eq!(listen_port(Some(" 8080\n")), 8080);
    assert_eq!(listen_port(Some("eighty")), 7995);
    assert_eq!(listen_port(Some("65536")), 7995);
    assert_eq!(listen_port(Some("")), 7995);
}

#[test]
fn port_numbers_read_as_std_reads_them() {
    for s in [
        "0", "1", "80", "+80", "00080", "65535", "65536", "99999999999999999999", "", "+", "++1",
        "-1", "-0", "8 0", " 80", "80a", "0x10", "\u{0661}", "65535 ", "+65535", "+65536",
    ] {
        assert_eq!(parse_port(s), s.parse::<u16>().ok(), "{s:?}");
    }
}

#[test]
fn token_is_trimmed_and_never_empty() {
    assert_eq!(shared_token(None), None);
    assert_eq!(shared_token(Some("")), None);
    assert_eq!(shared_token(Some(" \t\n")), None);
    assert_eq!(shared_token(Some(" s3cret\n")), Some("s3cret".to_owned()));
    assert_eq!(shared_token(Some("a b")), Some("a b".to_owned()));
}

#[test]
fn blank_secret_lets_nothing_in() {
    for var in [None, Some(""), Some(" \t\u{2003}")] {
        let token = shared_token(var);
        for header in [None, Some("Bearer "), Some("Bearer  \t"), Some("Bearer x")] {
            assert!(!authorize(header, token.as_deref()));
        }
    }
    let token = shared_token(Some(" x "));
    assert!(authorize(Some("Bearer x"), token.as_deref()));
}

#[test]
fn white_space_is_what_std_calls_so() {
    for u in 0..=0x10FFFFu32 {
        if let Some(c) = char::from_u32(u) {
            assert_eq!(is_white_space(c), c.is_whitespace(), "{u:x}");
        }
    }
}

#[test]
fn trimming_takes_off_what_std_takes_off() {
    for s in [
        "",
        " ",
        "a",
        " a b ",
        "\u{2003}x\u{3000}",
        "\n\t \r",
        "\u{200b}x\u{200b}",
        "\u{85}\u{a0}é\u{1680}",
    ] {
        assert_eq!(trimmed(s), s.trim());
        assert_eq!(is_blank(s), s.trim().is_empty());
    }
}

#[test]
fn text_comparison_and_prefixes() {
    assert!(same_text("é", "é"));
    assert!(!same_text("é", "e"));
    assert!(!same_text("ab", "a"));
    assert_eq!(strip_prefix("Bearer x", "Bearer "), Some("x"));
    assert_eq!(strip_prefix("Bearer ", "Bearer "), Some(""));
    assert_eq!(strip_prefix("Bearer", "Bearer "), None);
    assert_eq!(strip_prefix("éa", "é"), Some("a"));
}
