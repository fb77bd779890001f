use isobrowse::text::{
    replace, count, has_prefix, has_suffix, has_substring, trim, white_space, decimal_string,
    chars_of, string_of, trim_char_chars,
};

#[test]
fn replace_matches_std_on_samples() {
    let cases = [
        ("a<b>c", "<", "&lt;"),
        ("aaa", "aa", "b"),
        ("aaaa", "aa", ""),
        ("", "x", "y"),
        ("xyz", "xyzw", "q"),
        ("<script><script>", "<script", "<template"),
        ("ünïcödé ünï", "ï", "ii"),
        ("target=\"_blank\" target=\"_blank\"", "target=\"_blank\"", "target=\"_self\""),
        ("ab", "", "-"),
        ("", "", "-"),
        ("héllo", "", ""),
        ("ü", "", "<>"),
    ];
    for (s, p, r) in cases {
        assert_eq!(replace(s, p, r), s.replace(p, r), "{:?} {:?} {:?}", s, p, r);
    }
}

#[test]
fn replace_is_left_to_right_and_non_overlapping() {
    assert_eq!(replace("aaa", "aa", "b"), "ba");
    assert_eq!(replace("abab", "ab", "ba"), "baba");
}

#[test]
fn count_matches_std_on_samples() {
    let cases = [
        ("aaaa", "aa"), ("<script<script", "<script"), ("", "a"), ("abc", "abcd"), ("a-a-a", "a"),
        ("", ""), ("abc", ""), ("ünï", ""),
    ];
    for (s, p) in cases {
        assert_eq!(count(s, p), s.matches(p).count());
    }
    assert_eq!(count("aaaa", "aa"), 2);
    assert_eq!(count("abc", ""), 4);
}

#[test]
fn replace_with_an_empty_pattern_surrounds_every_char() {
    assert_eq!(replace("ab", "", "-"), "-a-b-");
    assert_eq!(replace("", "", "-"), "-");
}

#[test]
fn prefix_suffix_and_substring() {
    assert!(has_prefix("/help me", "/help"));
    assert!(!has_prefix("/hel", "/help"));
    assert!(has_prefix("anything", ""));
    assert!(has_suffix("tool.wasm", ".wasm"));
    assert!(!has_suffix("wasm", ".wasm"));
    assert!(has_substring("C:\\tools\\x", ":\\"));
    assert!(!has_substring("abc", "abd"));
    assert!(has_substring("abc", ""));
}

#[test]
fn white_space_agrees_with_std_on_every_char() {
    for u in 0u32..=0x10FFFF {
        if let Some(c) = char::from_u32(u) {
            assert_eq!(white_space(c), c.is_whitespace(), "U+{:04X}", u);
        }
    }
}

#[test]
fn trim_matches_std_on_samples() {
    let cases = ["  a b  ", "\t\n x \r\n", "", "   ", "\u{3000}wide\u{2028}", "\u{85}x\u{a0}", "no-space"];
    for s in cases {
        assert_eq!(trim(s), s.trim());
    }
}

#[test]
fn trim_of_a_char_matches_std() {
    let cases = ["\"path\"", "\"\"\"x\"", "plain", "\"", ""];
    for s in cases {
        let cs = chars_of(s);
        let out = string_of(&trim_char_chars(&cs, '"'));
        assert_eq!(out, s.trim_matches('"'));
    }
}

#[test]
fn decimal_string_matches_to_string() {
    for n in [0u128, 7, 10, 99, 100, 4096, 1234567890123, u64::MAX as u128, u128::MAX] {
        assert_eq!(decimal_string(n), n.to_string());
    }
}

#[test]
fn chars_round_trip() {
    let s = "héllo → wörld";
    assert_eq!(string_of(&chars_of(s)), s);
}
