use coretools::echo::{convert_number, process_escapes};

fn esc(s: &str) -> String {
    let mut v = s.to_string();
    process_escapes(&mut v);
    v
}

#[test]
fn two_character_escapes_are_replaced() {
    assert_eq!(esc("a\\nb"), "a\nb");
    assert_eq!(esc("a\\tb"), "a\tb");
    assert_eq!(esc("\\a\\b\\e\\f\\r\\v"), "\x07\x08\x1b\x0c\r\x0b");
    assert_eq!(esc("no escapes"), "no escapes");
    assert_eq!(esc(""), "");
}

#[test]
fn backslash_c_cuts_the_output() {
    assert_eq!(esc("ab\\ccd"), "ab");
    assert_eq!(esc("\\cxyz"), "");
}

#[test]
fn hex_escapes_become_their_characters() {
    assert_eq!(esc("\\x41"), "A");
    assert_eq!(esc("pre\\x41post"), "preApost");
    assert_eq!(esc("\\x7a"), "z");
    // one digit, terminated by a backslash escape boundary
    assert_eq!(esc("\\x9\\x41"), "\tA");
}

#[test]
fn octal_escapes_become_their_characters() {
    assert_eq!(esc("\\0101"), "A");
    assert_eq!(esc("\\012"), "\n");
    assert_eq!(esc("x\\0101y"), "xAy");
}

#[test]
fn hex_escape_chained_through_a_produced_backslash() {
    // \x5c yields a backslash which, with the restart from the front,
    // combines with the following text into a second escape
    assert_eq!(esc("\\x5cx41"), "A");
}

#[test]
fn unconvertible_escapes_are_left_in_place() {
    assert_eq!(esc("\\xzz"), "\\xzz");
    assert_eq!(esc("\\xff"), "\\xff");
    assert_eq!(esc("a\\xzzb\\x41"), "a\\xzzbA");
}

#[test]
fn a_trailing_marker_is_dropped() {
    assert_eq!(esc("ab\\x"), "ab");
    assert_eq!(esc("ab\\0"), "ab");
}

#[test]
fn convert_number_replaces_one_occurrence() {
    let mut s = "\\x41tail".to_string();
    convert_number(&mut s, 16, 0);
    assert_eq!(s, "Atail");

    let mut s = "pre\\0101".to_string();
    convert_number(&mut s, 8, 3);
    assert_eq!(s, "preA");

    // an unknown base leaves the text alone
    let mut s = "\\x41".to_string();
    convert_number(&mut s, 10, 0);
    assert_eq!(s, "\\x41");

    // a marker at the very end is dropped
    let mut s = "ab\\x".to_string();
    convert_number(&mut s, 16, 2);
    assert_eq!(s, "ab");
}
