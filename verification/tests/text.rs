use termrs::text::{
    chars_of, join2, join3, kept_span, render_decimal, render_signed, split_on, trimmed,
    words_of,
};

#[test]
fn split_gives_one_piece_more_than_separators() {
    assert_eq!(split_on("a b", ' '), vec!["a", "b"]);
    assert_eq!(split_on("a  b", ' '), vec!["a", "", "b"]);
    assert_eq!(split_on(" a", ' '), vec!["", "a"]);
    assert_eq!(split_on("a ", ' '), vec!["a", ""]);
    assert_eq!(split_on("", ' '), vec![""]);
    assert_eq!(split_on("abc", ' '), vec!["abc"]);
    assert_eq!(split_on("/bin:/usr/bin::/opt", ':'), vec!["/bin", "/usr/bin", "", "/opt"]);
}

#[test]
fn split_pieces_joined_are_the_text() {
    for text in ["", "a", "a:b", ":", "::x:", "no separator", "é:越:"] {
        let pieces = split_on(text, ':');
        assert_eq!(pieces.join(":"), text);
        assert!(pieces.iter().all(|p| !p.contains(':')));
    }
}

#[test]
fn split_counts_characters_not_bytes() {
    assert_eq!(split_on("é é", ' '), vec!["é", "é"]);
    assert_eq!(split_on("越/南", '/'), vec!["越", "南"]);
}

#[test]
fn trimmed_drops_white_space_at_both_ends() {
    assert_eq!(trimmed("  a b \t\n"), "a b");
    assert_eq!(trimmed("\tx"), "x");
    assert_eq!(trimmed("x\r\n"), "x");
    assert_eq!(trimmed("x"), "x");
    assert_eq!(trimmed(""), "");
    assert_eq!(trimmed(" \t "), "");
    assert_eq!(trimmed("\u{a0}é\u{3000}"), "é");
}

#[test]
fn words_of_splits_on_single_spaces_and_trims() {
    assert_eq!(words_of("cfg 255 0 0 -cU"), vec!["cfg", "255", "0", "0", "-cU"]);
    assert_eq!(words_of("ls"), vec!["ls"]);
    assert_eq!(words_of("a  b"), vec!["a", "", "b"]);
    assert_eq!(words_of("a\t b\n"), vec!["a", "b"]);
    assert_eq!(words_of(""), vec![""]);
    assert_eq!(words_of(" "), vec!["", ""]);
}

#[test]
fn tabs_do_not_separate_words() {
    assert_eq!(words_of("a\tb"), vec!["a\tb"]);
}

#[test]
fn decimal_has_no_leading_zeros() {
    assert_eq!(render_decimal(0), "0");
    assert_eq!(render_decimal(7), "7");
    assert_eq!(render_decimal(10), "10");
    assert_eq!(render_decimal(255), "255");
    assert_eq!(render_decimal(1234567890), "1234567890");
    assert_eq!(render_decimal(u64::MAX), "18446744073709551615");
}

#[test]
fn signed_decimal_has_a_minus_sign_below_zero() {
    assert_eq!(render_signed(0), "0");
    assert_eq!(render_signed(-1), "-1");
    assert_eq!(render_signed(127), "127");
    assert_eq!(render_signed(i32::MIN), "-2147483648");
    assert_eq!(render_signed(i32::MAX), "2147483647");
}

#[test]
fn chars_of_gives_the_characters() {
    assert_eq!(chars_of("aé越"), vec!['a', 'é', '越']);
    assert_eq!(chars_of(""), Vec::<char>::new());
}

#[test]
fn joins_write_their_parts_in_a_row() {
    assert_eq!(join2("ab", "cd"), "abcd");
    assert_eq!(join3("a", "/", "b"), "a/b");
    assert_eq!(join3("", "", ""), "");
}

#[test]
fn the_kept_span_has_no_blank_at_either_end() {
    assert_eq!(kept_span(&vec![true, false, true, false, true, true]), (1, 4));
    assert_eq!(kept_span(&vec![false, false]), (0, 2));
    assert_eq!(kept_span(&vec![false]), (0, 1));
    assert_eq!(kept_span(&Vec::new()), (0, 0));
    assert_eq!(kept_span(&vec![true, true, true]), (3, 3));
    assert_eq!(kept_span(&vec![true, false]), (1, 2));
    assert_eq!(kept_span(&vec![false, true]), (0, 1));
}
