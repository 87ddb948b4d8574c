use any_games_discord_rich_presence::text::{
    concat3, contains_exec, ends_with_exec, is_blank, join_exec, lowercase, replace_all_exec,
    split_whitespace_exec, string_from_chars, to_chars, trim_end_matches_exec, trimmed,
    uppercase_char, is_whitespace,
};

fn chars(s: &str) -> Vec<char> {
    s.chars().collect()
}

#[test]
fn trim_end_matches_removes_every_trailing_copy() {
    assert_eq!(trim_end_matches_exec(&chars("aaa"), &chars("aa")), chars("a"));
    assert_eq!(trim_end_matches_exec(&chars("x.exe.exe"), &chars(".exe")), chars("x"));
    assert_eq!(trim_end_matches_exec(&chars("x.exe"), &chars("")), chars("x.exe"));
    assert_eq!("aaa".trim_end_matches("aa"), "a");
}

#[test]
fn replace_all_is_leftmost_and_non_overlapping() {
    assert_eq!(replace_all_exec(&chars("aaa"), &chars("aa"), &chars("b")), chars("ba"));
    assert_eq!("aaa".replace("aa", "b"), "ba");
    assert_eq!(
        replace_all_exec(&chars("{t} and {t}"), &chars("{t}"), &chars("X")),
        chars("X and X")
    );
}

#[test]
fn contains_and_ends_with_on_characters() {
    assert!(contains_exec(&chars("c:\\games\\x"), &chars("\\games\\")));
    assert!(!contains_exec(&chars("abc"), &chars("abd")));
    assert!(contains_exec(&chars("abc"), &chars("")));
    assert!(ends_with_exec(&chars("game_shipping.exe"), &chars("_shipping.exe")));
    assert!(!ends_with_exec(&chars("exe"), &chars(".exe")));
}

#[test]
fn words_and_join() {
    let w = split_whitespace_exec(&chars(" a  bc\td "));
    assert_eq!(w, vec![chars("a"), chars("bc"), chars("d")]);
    assert_eq!(join_exec(&w, &chars("-")), chars("a-bc-d"));
    assert!(split_whitespace_exec(&chars("  \n ")).is_empty());
}

#[test]
fn trimming_and_blankness() {
    assert_eq!(trimmed("  key \n"), "key");
    assert!(is_blank(" \t "));
    assert!(!is_blank(" a "));
    assert!(is_blank(""));
}

#[test]
fn standard_library_wrappers_change_their_input() {
    assert_eq!(lowercase("ELDEN Ring"), "elden ring");
    assert_eq!(uppercase_char('ß'), "SS");
    assert!(is_whitespace('\u{3000}'));
    assert!(!is_whitespace('x'));
    assert_eq!(to_chars("héllo"), vec!['h', 'é', 'l', 'l', 'o']);
    assert_eq!(string_from_chars(&vec!['o', 'k']), "ok");
    assert_eq!(concat3("a", "b", "c"), "abc");
}

#[test]
fn whitespace_agrees_with_the_standard_library_on_every_char() {
    for u in 0..=0x10FFFFu32 {
        if let Some(c) = char::from_u32(u) {
            assert_eq!(is_whitespace(c), c.is_whitespace(), "U+{:04X}", u);
        }
    }
}

#[test]
fn case_mappings_on_ascii_and_beyond() {
    assert_eq!(lowercase("ABC-xyz_09"), "abc-xyz_09");
    assert_eq!(uppercase_char('q'), "Q");
    assert_eq!(uppercase_char('7'), "7");
    assert_eq!(lowercase("ÄBC"), "äbc");
}
