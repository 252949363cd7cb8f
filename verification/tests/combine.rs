use noveler::combine::artifact_name;
use noveler::combine::combine_txt;
use noveler::combine::concatenate;
use noveler::combine::sort_by_name;
use noveler::combine::SavedFile;
use noveler::text::chars_of;
use noveler::text::comes_before;
use noveler::text::starts_with;
use noveler::text::string_of;

fn file(name: &str, content: &str) -> SavedFile {
    SavedFile { name: name.to_string(), content: content.as_bytes().to_vec() }
}

fn before(a: &str, b: &str) -> bool {
    comes_before(&chars_of(a), &chars_of(b))
}

#[test]
fn continuation_files_sort_after_their_base_and_before_the_next_base() {
    let files = vec![
        file("00002.txt", "d"),
        file("00001_n_n.txt", "c"),
        file("00001.txt", "a"),
        file("00001_n.txt", "b"),
    ];
    let sorted = sort_by_name(files);
    let names: Vec<&str> = sorted.iter().map(|f| f.name.as_str()).collect();
    assert_eq!(names, vec!["00001.txt", "00001_n.txt", "00001_n_n.txt", "00002.txt"]);
    assert!(before("00001.txt", "00001_n.txt"));
    assert!(before("00001_n.txt", "00001_n_n.txt"));
    assert!(before("00001_n_n.txt", "00002.txt"));
}

#[test]
fn order_of_strings_is_that_of_std() {
    let samples = ["", "a", "ab", "b", "B", "00001", "00001_n", "0000", "漢", "漢字", "é", "z"];
    for a in samples {
        for b in samples {
            assert_eq!(before(a, b), a < b, "{a:?} {b:?}");
        }
    }
}

#[test]
fn keys_of_six_places_sort_before_keys_of_five() {
    assert!(before("100000.txt", "99999.txt"));
}

#[test]
fn combine_joins_the_files_in_name_order_with_blank_lines() {
    let files = vec![
        file("00003.txt", "three"),
        file("00002_n.txt", "two more"),
        file("00001.txt", "one"),
        file("00002.txt", "two"),
    ];
    assert_eq!(combine_txt(files), "one\n\ntwo\n\ntwo more\n\nthree".as_bytes());
}

#[test]
fn combine_of_nothing_is_empty() {
    assert_eq!(combine_txt(Vec::new()), Vec::<u8>::new());
    assert_eq!(concatenate(&Vec::new()), Vec::<u8>::new());
    assert_eq!(combine_txt(vec![file("a.txt", "only")]), "only".as_bytes());
    assert_eq!(combine_txt(vec![file("a.txt", "")]), Vec::<u8>::new());
}

#[test]
fn concatenate_keeps_the_given_order() {
    let files = vec![file("b", "2"), file("a", "1")];
    assert_eq!(concatenate(&files), "2\n\n1".as_bytes());
}

#[test]
fn sort_keeps_files_of_one_name_in_their_order() {
    let files = vec![file("a", "first"), file("b", "x"), file("a", "second")];
    let sorted = sort_by_name(files);
    assert_eq!(sorted, vec![file("a", "first"), file("a", "second"), file("b", "x")]);
}

#[test]
fn chars_and_strings_convert_both_ways() {
    assert_eq!(chars_of("a漢b"), vec!['a', '漢', 'b']);
    assert_eq!(string_of(&vec!['a', '漢', 'b']), "a漢b");
    assert_eq!(string_of(&Vec::new()), "");
}

#[test]
fn starts_with_compares_prefixes() {
    assert!(starts_with(&chars_of("https://x"), &chars_of("https://")));
    assert!(starts_with(&chars_of("abc"), &chars_of("")));
    assert!(!starts_with(&chars_of("ab"), &chars_of("abc")));
    assert!(!starts_with(&chars_of("abd"), &chars_of("abc")));
}

#[test]
fn the_four_bodies_are_separated_by_blank_lines() {
    let files = vec![
        file("00002_n.txt", "c2n"),
        file("00003.txt", "c3"),
        file("00001.txt", "c1"),
        file("00002.txt", "c2"),
    ];
    assert_eq!(combine_txt(files), "c1\n\nc2\n\nc2n\n\nc3".as_bytes());
}

#[test]
fn bytes_that_are_no_text_are_kept() {
    let files = vec![
        SavedFile { name: "b".to_string(), content: vec![0xff, 0x00] },
        SavedFile { name: "a".to_string(), content: vec![0xfe] },
    ];
    assert_eq!(combine_txt(files), vec![0xfe, 10, 10, 0xff, 0x00]);
}

#[test]
fn the_book_text_is_named_after_its_directory() {
    assert_eq!(artifact_name("author_name"), "author_name.txt");
    assert_eq!(artifact_name("vol.1"), "vol.1.txt");
    assert_eq!(artifact_name(""), ".txt");
}
