use van_binh::text::{chars_of, contains, number_text, same_text, truth_text};

#[test]
fn contains_finds_a_word_anywhere() {
    assert!(contains("chicken", "chicken"));
    assert!(contains("thai chicken please", "chicken"));
    assert!(contains("xxchicken", "chicken"));
    assert!(contains("chickenxx", "chicken"));
    assert!(contains("fried rice", "rice"));
}

#[test]
fn contains_rejects_what_is_not_there() {
    assert!(!contains("pizza", "chicken"));
    assert!(!contains("chicke", "chicken"));
    assert!(!contains("chick en", "chicken"));
    assert!(!contains("", "rice"));
    assert!(!contains("ric", "rice"));
    assert!(!contains("ricf rjce", "rice"));
}

#[test]
fn contains_tells_upper_from_lower_case() {
    assert!(!contains("Chicken", "chicken"));
    assert!(!contains("TOFU", "tofu"));
}

#[test]
fn contains_finds_the_empty_word_everywhere() {
    assert!(contains("", ""));
    assert!(contains("rice", ""));
}

#[test]
fn contains_survives_a_false_start() {
    assert!(contains("ririce", "rice"));
    assert!(contains("totofu", "tofu"));
    assert!(contains("aab", "ab"));
}

#[test]
fn contains_goes_by_characters() {
    assert!(contains("zupa z kurczakiem i rice \u{142}", "rice"));
    assert!(contains("\u{142}\u{142}tofu", "tofu"));
    assert!(contains("za\u{17c}\u{f3}\u{142}\u{107}", "\u{f3}\u{142}"));
    assert!(!contains("za\u{17c}\u{f3}\u{142}\u{107}", "\u{142}\u{f3}"));
}

#[test]
fn contains_agrees_with_the_standard_library() {
    let lines = ["", "a", "rice", "chicken tofu", "tofuchickenrice", "ch", "icken", "r i c e"];
    let words = ["", "chicken", "tofu", "rice", "c", "en"];
    for line in lines {
        for word in words {
            assert_eq!(contains(line, word), line.contains(word));
        }
    }
}

#[test]
fn chars_of_lists_the_characters() {
    assert_eq!(chars_of(""), Vec::<char>::new());
    assert_eq!(chars_of("tofu"), vec!['t', 'o', 'f', 'u']);
    assert_eq!(chars_of("z\u{142}"), vec!['z', '\u{142}']);
}

#[test]
fn same_text_compares_every_character() {
    assert!(same_text("y", "y"));
    assert!(same_text("", ""));
    assert!(!same_text("y", "Y"));
    assert!(!same_text("y", "yes"));
    assert!(!same_text("y", ""));
    assert!(!same_text("y ", "y"));
}

#[test]
fn numbers_are_written_in_decimal() {
    assert_eq!(number_text(0), "0");
    assert_eq!(number_text(7), "7");
    assert_eq!(number_text(9), "9");
    assert_eq!(number_text(10), "10");
    assert_eq!(number_text(55), "55");
    assert_eq!(number_text(100), "100");
    assert_eq!(number_text(1234567890), "1234567890");
    assert_eq!(number_text(4294967295), "4294967295");
}

#[test]
fn numbers_are_written_as_the_standard_library_writes_them() {
    let mut n: u32 = 1;
    for _ in 0..32 {
        assert_eq!(number_text(n), format!("{}", n));
        assert_eq!(number_text(n.wrapping_sub(1)), format!("{}", n.wrapping_sub(1)));
        n = n.wrapping_mul(3).wrapping_add(1);
    }
}

#[test]
fn truth_is_written_as_a_word() {
    assert_eq!(truth_text(true), "true");
    assert_eq!(truth_text(false), "false");
}
