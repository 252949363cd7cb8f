use noveler::extract::clean_lines;
use noveler::extract::clean_pieces;
use noveler::extract::concat_texts;
use noveler::extract::remove_from_text;
use noveler::extract::replace_text;
use noveler::extract::reversed;
use noveler::extract::trim_and_join;
use noveler::extract::trim_text;
use noveler::lines::contains;
use noveler::lines::holds_char;
use noveler::lines::join_from;
use noveler::lines::matches_at;
use noveler::lines::remove_chars;
use noveler::lines::replace;
use noveler::lines::slice_of;
use noveler::lines::split;
use noveler::lines::split_at;
use noveler::lines::split_inclusive;
use noveler::lines::trim;
use noveler::lines::trim_and_keep;
use noveler::lines::white_space;
use noveler::text::chars_of;
use noveler::text::string_of;

fn chars(s: &str) -> Vec<char> {
    chars_of(s)
}

fn texts(pieces: &Vec<Vec<char>>) -> Vec<String> {
    pieces.iter().map(string_of).collect()
}

#[test]
fn white_space_is_what_std_calls_white_space() {
    let mut c: u32 = 0;
    while c <= 0x3100 {
        if let Some(ch) = char::from_u32(c) {
            assert_eq!(white_space(ch), ch.is_whitespace(), "U+{c:04X}");
        }
        c += 1;
    }
    assert!(!white_space('\u{feff}'));
    assert!(!white_space('\u{200b}'));
}

#[test]
fn trim_is_that_of_std() {
    for s in ["", " ", "a", " a b ", "\n\t a\u{3000}", "\u{a0}x\u{a0}", "   ", "a \n"] {
        assert_eq!(string_of(&trim(&chars(s))), s.trim(), "{s:?}");
        assert_eq!(trim_text(s), s.trim());
    }
}

#[test]
fn split_cuts_at_every_separator() {
    let seps = vec!['\n', '\r'];
    for s in ["", "a", "a\nb", "a\r\nb", "\n", "a\n", "\na", "a\n\n\nb"] {
        let expected: Vec<String> = s.split(['\n', '\r']).map(|p| p.to_string()).collect();
        assert_eq!(texts(&split(&chars(s), &seps)), expected, "{s:?}");
    }
    assert_eq!(texts(&split(&chars("a,b"), &Vec::new())), vec!["a,b"]);
}

#[test]
fn split_at_cuts_at_every_occurrence() {
    for s in ["", "a", "a  b", "a   b", "a    b", "  ", "  a", "a  ", " a b "] {
        let expected: Vec<String> = s.split("  ").map(|p| p.to_string()).collect();
        assert_eq!(texts(&split_at(&chars(s), &chars("  "))), expected, "{s:?}");
    }
    assert_eq!(texts(&split_at(&chars("abc"), &chars(""))), vec!["abc"]);
}

#[test]
fn split_inclusive_cuts_behind_every_separator() {
    for s in ["", "a", "a。b", "a。", "。", "。。", "a。b。", "。a"] {
        let expected: Vec<String> = s.split_inclusive('。').map(|p| p.to_string()).collect();
        assert_eq!(texts(&split_inclusive(&chars(s), '。')), expected, "{s:?}");
    }
}

#[test]
fn trim_and_keep_drops_what_is_empty_after_trimming() {
    let pieces = vec![chars(" a "), chars("  "), chars(""), chars("b")];
    assert_eq!(texts(&trim_and_keep(&pieces)), vec!["a", "b"]);
    assert_eq!(texts(&trim_and_keep(&Vec::new())), Vec::<String>::new());
}

#[test]
fn join_from_skips_the_first_pieces() {
    let pieces = vec![chars("a"), chars("b"), chars("c")];
    let sep = chars("\n");
    assert_eq!(string_of(&join_from(&pieces, 0, &sep)), "a\nb\nc");
    assert_eq!(string_of(&join_from(&pieces, 2, &sep)), "c");
    assert_eq!(string_of(&join_from(&pieces, 3, &sep)), "");
    assert_eq!(string_of(&join_from(&pieces, 9, &sep)), "");
    assert_eq!(string_of(&join_from(&pieces, 1, &chars(", "))), "b, c");
}

#[test]
fn replace_is_that_of_std_for_a_pattern_that_is_not_empty() {
    let cases = [
        ("", "a", "b"),
        ("aaa", "aa", "b"),
        ("作者 / 某人", "作者 / ", ""),
        ("x.html", ".html", ""),
        ("abcabc", "bc", "__"),
        ("abc", "abcd", "x"),
        ("aXbXc", "X", ""),
    ];
    for (s, pat, to) in cases {
        assert_eq!(replace_text(s, pat, to), s.replace(pat, to), "{s:?} {pat:?}");
        assert_eq!(string_of(&replace(&chars(s), &chars(pat), &chars(to))), s.replace(pat, to));
    }
}

#[test]
fn replace_of_an_empty_pattern_changes_nothing() {
    assert_eq!(replace_text("abc", "", "x"), "abc");
}

#[test]
fn contains_is_that_of_std() {
    let cases = [("", ""), ("a", ""), ("", "a"), ("abc", "bc"), ("abc", "cb"), ("abc", "abcd")];
    for (s, pat) in cases {
        assert_eq!(contains(&chars(s), &chars(pat)), s.contains(pat), "{s:?} {pat:?}");
    }
    assert!(matches_at(&chars("abc"), &chars("bc"), 1));
    assert!(!matches_at(&chars("abc"), &chars("bc"), 2));
    assert!(matches_at(&chars("abc"), &chars(""), 3));
}

#[test]
fn remove_chars_takes_out_every_listed_character() {
    assert_eq!(remove_from_text("《書》名", &vec!['《', '》']), "書名");
    assert_eq!(string_of(&remove_chars(&chars("abc"), &Vec::new())), "abc");
    assert!(holds_char(&vec!['a', 'b'], 'b'));
    assert!(!holds_char(&vec!['a', 'b'], 'c'));
}

#[test]
fn slice_of_copies_a_range() {
    assert_eq!(string_of(&slice_of(&chars("abcd"), 1, 3)), "bc");
    assert_eq!(string_of(&slice_of(&chars("abcd"), 2, 2)), "");
}

#[test]
fn clean_lines_trims_drops_and_skips() {
    let seps = vec!['\n', '\r'];
    assert_eq!(clean_lines("a\n b \r\n\nc\nd", &seps, 2), "c\nd");
    assert_eq!(clean_lines("a\n b \r\n\nc\nd", &seps, 0), "a\nb\nc\nd");
    assert_eq!(clean_lines("a\nb", &seps, 2), "");
    assert_eq!(clean_lines("", &seps, 0), "");
}

#[test]
fn clean_pieces_cuts_at_double_spaces() {
    assert_eq!(clean_pieces("a  b   c d", "  "), "a\nb\nc d");
    assert_eq!(clean_pieces("    ", "  "), "");
}

#[test]
fn texts_join_and_reverse() {
    let list = vec![" a ".to_string(), "b".to_string(), "".to_string()];
    assert_eq!(concat_texts(&list), " a b");
    assert_eq!(trim_and_join(&list), "a\nb\n");
    assert_eq!(reversed(list), vec!["".to_string(), "b".to_string(), " a ".to_string()]);
    assert_eq!(concat_texts(&Vec::new()), "");
    assert_eq!(trim_and_join(&Vec::new()), "");
}
