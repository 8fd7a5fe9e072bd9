use gopher_server::selector::{is_whitespace_char, trim_selector};

#[test]
fn whitespace_is_the_unicode_property() {
    let mut n: u32 = 0;
    while n <= 0x10FFFF {
        if let Some(c) = char::from_u32(n) {
            assert_eq!(is_whitespace_char(c), c.is_whitespace(), "U+{:04X}", n);
        }
        n += 1;
    }
}

#[test]
fn trim_removes_the_terminator() {
    assert_eq!(trim_selector("a.txt\r\n"), "a.txt");
    assert_eq!(trim_selector("b\r\n"), "b");
    assert_eq!(trim_selector("/srv/gopher/docs\n"), "/srv/gopher/docs");
}

#[test]
fn trim_removes_white_space_at_both_ends_only() {
    assert_eq!(trim_selector("  \t my file.txt \r\n"), "my file.txt");
    assert_eq!(trim_selector("a\tb"), "a\tb");
    assert_eq!(trim_selector("x"), "x");
}

#[test]
fn trim_of_blank_lines_is_empty() {
    assert_eq!(trim_selector(""), "");
    assert_eq!(trim_selector("\r\n"), "");
    assert_eq!(trim_selector("   "), "");
    assert_eq!(trim_selector(" \t\r\n"), "");
}

#[test]
fn trim_counts_characters_not_bytes() {
    assert_eq!(trim_selector("\u{00A0}\u{3000}döner/ß\u{2003}\r\n"), "döner/ß");
    assert_eq!(trim_selector("\u{2028}日本語\u{0085}"), "日本語");
    assert_eq!(trim_selector("\u{200B}a\u{200B}"), "\u{200B}a\u{200B}");
}

#[test]
fn trim_agrees_with_std() {
    let samples = [
        "",
        " ",
        "\r\n",
        "a",
        " a",
        "a ",
        " a b ",
        "\u{1680}x\u{205F}",
        "\u{202F}\u{2029}",
        "é\u{000B}\u{000C}",
        "\u{FEFF}a\r\n",
        "dir/sub dir/file.txt\r\n",
    ];
    for s in samples {
        assert_eq!(trim_selector(s), s.trim(), "{:?}", s);
    }
}

#[test]
fn trim_is_idempotent() {
    for s in ["  a b \r\n", "\r\n", "x", "\u{3000}y\u{3000}"] {
        let once = trim_selector(s);
        assert_eq!(trim_selector(once), once);
    }
}
