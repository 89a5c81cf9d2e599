use init_tools::text::chars_of;
use init_tools::text::matches_at;
use init_tools::text::replace_all;
use init_tools::text::same_text;

#[test]
fn chars_of_keeps_every_character_in_order() {
    assert_eq!(chars_of(""), Vec::<char>::new());
    assert_eq!(chars_of("a\u{e9}\u{1f600}z"), vec!['a', '\u{e9}', '\u{1f600}', 'z']);
}

#[test]
fn same_text_compares_whole_texts() {
    assert!(same_text("", ""));
    assert!(same_text("--file", "--file"));
    assert!(!same_text("--file", "--fil"));
    assert!(!same_text("-f", "-F"));
}

#[test]
fn matches_at_checks_one_position() {
    let text = chars_of("abcabc");
    let pattern = chars_of("bc");
    assert!(!matches_at(&text, &pattern, 0));
    assert!(matches_at(&text, &pattern, 1));
    assert!(matches_at(&text, &pattern, 4));
    assert!(!matches_at(&text, &pattern, 5));
    assert!(!matches_at(&text, &pattern, 6));
    assert!(!matches_at(&text, &pattern, 7));
    assert!(!matches_at(&text, &pattern, usize::MAX));
    assert!(matches_at(&text, &Vec::new(), 6));
    assert!(!matches_at(&text, &Vec::new(), 7));
}

#[test]
fn replace_all_replaces_every_occurrence() {
    assert_eq!(replace_all("Hello {{NAME}}, {{NAME}}!", "{{NAME}}", "World"), "Hello World, World!");
    assert_eq!(replace_all("aaaa", "a", "bb"), "bbbbbbbb");
    assert_eq!(replace_all("abc", "abc", ""), "");
    assert_eq!(replace_all("abc", "abcd", "x"), "abc");
    assert_eq!(replace_all("", "a", "x"), "");
}

#[test]
fn replace_all_does_not_overlap_occurrences() {
    assert_eq!(replace_all("aaa", "aa", "b"), "ba");
    assert_eq!(replace_all("ababab", "aba", "x"), "xbab");
}

#[test]
fn replace_all_does_not_search_what_it_put_in() {
    assert_eq!(replace_all("ab", "a", "aa"), "aab");
    assert_eq!(replace_all("xay", "a", "xay"), "xxayy");
}

#[test]
fn replace_all_with_an_empty_pattern_puts_the_text_around_every_character() {
    assert_eq!(replace_all("abc", "", "-"), "-a-b-c-");
    assert_eq!(replace_all("", "", "-"), "-");
    assert_eq!(replace_all("\u{e9}\u{1f600}", "", "."), ".\u{e9}.\u{1f600}.");
}

#[test]
fn replace_all_agrees_with_the_standard_library() {
    let texts = ["", "a", "aaa", "abcabc", "{{X}}{{X}}", "a{{X}}b{{Y}}c", "\u{e9}t\u{e9}", "}}{{", "xx{{X}"];
    let patterns = ["", "a", "aa", "bc", "{{X}}", "\u{e9}", "{{", "}}", "abcabcabc"];
    let replacements = ["", "a", "zz", "{{X}}", "\u{1f600}"];
    for text in texts {
        for pattern in patterns {
            for replacement in replacements {
                assert_eq!(
                    replace_all(text, pattern, replacement),
                    text.replace(pattern, replacement),
                    "text {:?}, pattern {:?}, replacement {:?}",
                    text,
                    pattern,
                    replacement
                );
            }
        }
    }
}
