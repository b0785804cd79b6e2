use chat_launch::text::{
    char_is_white_space, characters, contains_char, contains_text, copy_list, copy_optional, join,
    list_contains, same_text, starts_with, trim,
};

fn strings(list: &[&str]) -> Vec<String> {
    list.iter().map(|s| s.to_string()).collect()
}

#[test]
fn white_space_agrees_with_std_on_every_char() {
    for code in 0..=0x10FFFFu32 {
        if let Some(c) = char::from_u32(code) {
            assert_eq!(char_is_white_space(c), c.is_whitespace(), "U+{:04X}", code);
        }
    }
}

#[test]
fn trim_agrees_with_std() {
    for s in [
        "",
        " ",
        " \t\n",
        "a",
        "  a b  ",
        "\u{3000}caf\u{e9}\u{a0}",
        "\u{200b}x\u{200b}",
        "\r\nline\r\n",
        "no space at all",
        "trailing\u{2028}",
    ] {
        assert_eq!(trim(s), s.trim());
        assert_eq!(trim(&trim(s)), s.trim());
    }
    assert_eq!(trim("  a b  "), "a b");
    assert_eq!(trim(" \t\n"), "");
}

#[test]
fn characters_are_in_order() {
    assert_eq!(characters("h\u{e9}!"), vec!['h', '\u{e9}', '!']);
    assert_eq!(characters(""), Vec::<char>::new());
}

#[test]
fn texts_are_compared_in_full() {
    assert!(same_text("abc", "abc"));
    assert!(same_text("", ""));
    assert!(!same_text("abc", "abd"));
    assert!(!same_text("abc", "ab"));
    assert!(!same_text("ab", "abc"));
}

#[test]
fn prefixes_agree_with_std() {
    for (s, prefix) in [
        ("abc", "ab"),
        ("abc", ""),
        ("abc", "abc"),
        ("abc", "abcd"),
        ("abc", "b"),
        ("", ""),
        ("@server/tool", "@"),
    ] {
        assert_eq!(starts_with(s, prefix), s.starts_with(prefix), "{} {}", s, prefix);
    }
}

#[test]
fn occurrences_agree_with_std() {
    for (s, needle) in [
        ("aws.ConflictException:1", "ConflictException"),
        ("ConflictException", "ConflictException"),
        ("Conflict", "ConflictException"),
        ("aaab", "aab"),
        ("abc", ""),
        ("", ""),
        ("", "a"),
        ("abc", "c"),
        ("abc", "d"),
    ] {
        assert_eq!(contains_text(s, needle), s.contains(needle), "{} {}", s, needle);
    }
    assert!(contains_char("a.b", '.'));
    assert!(!contains_char("ab", '.'));
    assert!(!contains_char("", '.'));
}

#[test]
fn lists_are_joined_and_searched() {
    assert_eq!(join(&strings(&[]), ", "), "");
    assert_eq!(join(&strings(&["a"]), ", "), "a");
    assert_eq!(join(&strings(&["a", "", "c"]), ", "), "a, , c");
    assert!(list_contains(&strings(&["fs_read", "fs_write"]), "fs_write"));
    assert!(!list_contains(&strings(&["fs_read", "fs_write"]), "fs"));
    assert!(!list_contains(&strings(&[]), ""));
}

#[test]
fn copies_are_equal() {
    assert_eq!(copy_list(&strings(&["a", "b"])), strings(&["a", "b"]));
    assert_eq!(copy_optional(&Some("a".to_string())), Some("a".to_string()));
    assert_eq!(copy_optional(&None), None);
}
