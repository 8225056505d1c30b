use middle_monitor_sdk::text::{
    chars_of, clip, contains, decimal_text, ends_with, find_from, is_white_space, parse_unsigned,
    remove_all, same, split, split_once, starts_with, strip_suffix, trim, trim_end_char,
    trim_start_text,
};

#[test]
fn white_space_is_that_of_unicode() {
    for code in 0..=0x10ffffu32 {
        if let Some(c) = char::from_u32(code) {
            assert_eq!(is_white_space(c), c.is_whitespace(), "{:x}", code);
        }
    }
}

#[test]
fn trimming_takes_white_space_from_both_ends() {
    for text in ["", " ", " a ", "\u{2003}a b\u{a0}", "a", "\t\n", "\u{200b}a"] {
        assert_eq!(trim(text), text.trim());
    }
}

#[test]
fn trimming_a_character_or_a_text() {
    assert_eq!(trim_end_char("a//", '/'), "a");
    assert_eq!(trim_end_char("//", '/'), "");
    assert_eq!(trim_end_char("a/b", '/'), "a/b");
    assert_eq!(trim_start_text("Bearer Bearer x", "Bearer "), "x");
    assert_eq!(trim_start_text("bearer x", "Bearer "), "bearer x");
    assert_eq!(trim_start_text("abc", ""), "abc");
}

#[test]
fn searching_agrees_with_strings() {
    let texts = ["", "a", "ab", "aab", "/v1/traces", "größe", "ße", "libstd"];
    for s in texts {
        for part in texts {
            assert_eq!(contains(s, part), s.contains(part));
            assert_eq!(starts_with(s, part), s.starts_with(part));
            assert_eq!(ends_with(s, part), s.ends_with(part));
            assert_eq!(strip_suffix(s, part), s.strip_suffix(part));
            assert_eq!(same(s, part), s == part);
            if !part.is_empty() {
                assert_eq!(remove_all(s, part), s.replace(part, ""));
            }
        }
    }
}

#[test]
fn removal_runs_from_left_to_right() {
    assert_eq!(remove_all("aaa", "aa"), "a");
    assert_eq!(remove_all("xabyabz", "ab"), "xyz");
    assert_eq!(remove_all("aabb", "ab"), "ab");
    assert_eq!(remove_all("abc", ""), "abc");
}

#[test]
fn splitting_agrees_with_strings() {
    for s in ["", ",", "a", "a,b", ",a,,b,", "ä,ö"] {
        assert_eq!(split(s, ','), s.split(',').collect::<Vec<&str>>());
        assert_eq!(split_once(s, ','), s.split_once(','));
    }
}

#[test]
fn numbers_read_back() {
    for n in [0u64, 9, 10, 99, 100, 500, 65535, 4294967295, u64::MAX] {
        assert_eq!(decimal_text(n), n.to_string());
        assert_eq!(parse_unsigned(&decimal_text(n), u64::MAX), Some(n));
    }
    assert_eq!(parse_unsigned("18446744073709551616", u64::MAX), None);
    assert_eq!(parse_unsigned("11", 10), None);
    assert_eq!(parse_unsigned("+10", 10), Some(10));
}

#[test]
fn clipping_keeps_whole_characters() {
    let s = "aä€😀z";
    assert_eq!(clip(s, 0), "");
    assert_eq!(clip(s, 1), "a");
    assert_eq!(clip(s, 2), "a");
    assert_eq!(clip(s, 3), "aä");
    assert_eq!(clip(s, 5), "aä");
    assert_eq!(clip(s, 6), "aä€");
    assert_eq!(clip(s, 9), "aä€");
    assert_eq!(clip(s, 10), "aä€😀");
    assert_eq!(clip(s, 11), s);
    assert_eq!(clip(s, 100), s);
}

#[test]
fn searching_from_a_position() {
    let s = chars_of("abcab");
    let part = chars_of("ab");
    assert_eq!(find_from(&s, &part, 0), Some(0));
    assert_eq!(find_from(&s, &part, 1), Some(3));
    assert_eq!(find_from(&s, &part, 4), None);
    assert_eq!(find_from(&s, &chars_of(""), 5), Some(5));
    assert_eq!(find_from(&s, &part, 6), None);
    assert_eq!(find_from(&s, &chars_of(""), 6), None);
}
