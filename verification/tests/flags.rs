use termrs::commands::args::ArgInfo;

#[test]
fn flag_is_set_by_a_dashed_token() {
    let info = ArgInfo::new(&vec!["-c"]);
    assert!(info.has_flag('c'));
    assert!(!info.has_flag('U'));
    assert!(!info.has_flag('-'));
}

#[test]
fn every_character_after_the_dash_is_a_flag() {
    let info = ArgInfo::new(&vec!["255", "0", "0", "-cU"]);
    assert!(info.has_flag('c'));
    assert!(info.has_flag('U'));
    assert!(!info.has_flag('2'));
    assert!(!info.has_flag('5'));
    assert!(!info.has_flag('0'));
}

#[test]
fn tokens_without_a_dash_set_nothing() {
    let info = ArgInfo::new(&vec!["abc", "x-y", "b"]);
    assert!(!info.has_flag('a'));
    assert!(!info.has_flag('b'));
    assert!(!info.has_flag('x'));
    assert!(!info.has_flag('y'));
}

#[test]
fn flag_tokens_accumulate() {
    let info = ArgInfo::new(&vec!["-a", "dir", "-b"]);
    assert!(info.has_flag('a'));
    assert!(info.has_flag('b'));
    assert!(!info.has_flag('d'));
}

#[test]
fn a_bare_dash_sets_nothing() {
    let info = ArgInfo::new(&vec!["-"]);
    for c in ['-', 'a', ' ', '0'] {
        assert!(!info.has_flag(c));
    }
}

#[test]
fn a_second_dash_is_a_flag_of_its_own() {
    let info = ArgInfo::new(&vec!["--trs-sandbox"]);
    assert!(info.has_flag('-'));
    assert!(info.has_flag('t'));
    assert!(info.has_flag('x'));
    assert!(!info.has_flag('q'));
}

#[test]
fn the_order_of_tokens_is_irrelevant() {
    let one = ArgInfo::new(&vec!["-fX", "name", "-D"]);
    let other = ArgInfo::new(&vec!["-D", "-Xf", "name"]);
    for c in ['f', 'X', 'D', 'F', 'n', '-'] {
        assert_eq!(one.has_flag(c), other.has_flag(c));
    }
}

#[test]
fn setting_a_flag_twice_is_setting_it_once() {
    let info = ArgInfo::new(&vec!["-aa", "-a"]);
    assert!(info.has_flag('a'));
    assert!(!info.has_flag('b'));
}

#[test]
fn no_arguments_no_flags() {
    let info = ArgInfo::new(&Vec::new());
    assert!(!info.has_flag('a'));
}

#[test]
fn flags_beyond_ascii() {
    let info = ArgInfo::new(&vec!["-é越"]);
    assert!(info.has_flag('é'));
    assert!(info.has_flag('越'));
    assert!(!info.has_flag('e'));
}

#[test]
fn empty_token_sets_nothing() {
    let info = ArgInfo::new(&vec!["", "-z"]);
    assert!(info.has_flag('z'));
    assert!(!info.has_flag(' '));
}
