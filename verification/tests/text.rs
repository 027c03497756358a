use release::text::{
    chars_of, contains, contains_chars, ends_with, ends_with_chars, is_space, same_text, trim,
};

#[test]
fn contains_finds_a_pattern_wherever_it_stands() {
    assert!(contains("error: known-issue", "known-issue"));
    assert!(contains("known-issue: error", "known-issue"));
    assert!(contains("an error: known-issue, again", "known-issue"));
    assert!(contains("abc", "abc"));
    assert!(contains("aab", "ab"));
    assert!(contains("abababc", "ababc"));
}

#[test]
fn contains_refuses_what_is_not_there() {
    assert!(!contains("abc", "abd"));
    assert!(!contains("abc", "abcd"));
    assert!(!contains("", "a"));
    assert!(!contains("known issue", "known-issue"));
    assert!(!contains("Known-Issue", "known-issue"));
}

#[test]
fn contains_finds_the_empty_pattern_everywhere() {
    assert!(contains("abc", ""));
    assert!(contains("", ""));
}

#[test]
fn contains_goes_by_characters() {
    assert!(contains("héllo wörld", "wör"));
    assert!(contains("日本語のテキスト", "のテ"));
    assert!(!contains("héllo", "hello"));
}

#[test]
fn contains_agrees_with_the_standard_library() {
    let texts = ["", "a", "ab", "aba", "abab", "error: x", "-pre", "ééé", "aé-b"];
    for text in texts {
        for pattern in texts {
            assert_eq!(contains(text, pattern), text.contains(pattern));
        }
    }
}

#[test]
fn ends_with_looks_at_the_end_only() {
    assert!(ends_with("1.2.3-pre", "-pre"));
    assert!(ends_with("-pre", "-pre"));
    assert!(ends_with("abc", ""));
    assert!(ends_with("", ""));
    assert!(!ends_with("1.2.3", "-pre"));
    assert!(!ends_with("-pre.1", "-pre"));
    assert!(!ends_with("pre", "-pre"));
    assert!(!ends_with("", "-pre"));
}

#[test]
fn ends_with_agrees_with_the_standard_library() {
    let texts = ["", "a", "ab", "aba", "abab", "1.0.0-pre", "-pre", "é-pre", "pre"];
    for text in texts {
        for suffix in texts {
            assert_eq!(ends_with(text, suffix), text.ends_with(suffix));
        }
    }
}

#[test]
fn chars_of_gives_the_characters_in_order() {
    assert_eq!(chars_of("a-é"), vec!['a', '-', 'é']);
    assert_eq!(chars_of(""), Vec::<char>::new());
}

#[test]
fn character_predicates_work_on_character_lists() {
    let text = chars_of("error: known-issue");
    assert!(contains_chars(&text, &chars_of("known")));
    assert!(!contains_chars(&text, &chars_of("unknown")));
    assert!(ends_with_chars(&text, &chars_of("issue")));
    assert!(!ends_with_chars(&text, &chars_of("error")));
}

#[test]
fn same_text_compares_whole_texts() {
    assert!(same_text("abc", "abc"));
    assert!(same_text("", ""));
    assert!(!same_text("abc", "abd"));
    assert!(!same_text("abc", "ab"));
    assert!(!same_text("abc", "ABC"));
}

#[test]
fn trim_removes_white_space_at_both_ends_only() {
    assert_eq!(trim("/home/me/repo\n"), "/home/me/repo");
    assert_eq!(trim("  a b\t c \r\n"), "a b\t c");
    assert_eq!(trim("abc"), "abc");
    assert_eq!(trim(""), "");
    assert_eq!(trim(" \t\n"), "");
    assert_eq!(trim("\u{a0}é \u{3000}"), "é");
    assert_eq!(trim("\u{200b}x\u{200b}"), "\u{200b}x\u{200b}");
}

#[test]
fn trim_agrees_with_the_standard_library() {
    let parts = ["", " ", "\n", "\t", "a", "é", "\u{85}", "\u{2003}", "\u{180e}", "\u{feff}", "a b"];
    for start in parts {
        for middle in parts {
            for end in parts {
                let text = format!("{}{}{}", start, middle, end);
                assert_eq!(trim(&text), text.trim());
            }
        }
    }
}

#[test]
fn white_space_is_what_the_standard_library_takes_for_it() {
    for code in 0..=0x10FFFFu32 {
        if let Some(c) = char::from_u32(code) {
            assert_eq!(is_space(c), c.is_whitespace());
        }
    }
}
