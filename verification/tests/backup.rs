use ultrawide_patcher::backup::answer_is_yes;

#[test]
fn plain_y_is_yes() {
    assert!(answer_is_yes("y"));
}

#[test]
fn newline_from_the_console_is_stripped() {
    assert!(answer_is_yes("y\n"));
    assert!(answer_is_yes("y\r\n"));
}

#[test]
fn surrounding_whitespace_is_stripped() {
    assert!(answer_is_yes("  y\t"));
    assert!(answer_is_yes("\t y \n"));
}

#[test]
fn other_answers_are_not_yes() {
    assert!(!answer_is_yes("n"));
    assert!(!answer_is_yes(""));
    assert!(!answer_is_yes("\n"));
    assert!(!answer_is_yes("yy"));
    assert!(!answer_is_yes("y y"));
    assert!(!answer_is_yes("Y"));
    assert!(!answer_is_yes("yes"));
}
