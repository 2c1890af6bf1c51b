use mini_textviewer::term::bold_string;
use mini_textviewer::term::clear_all_string;
use mini_textviewer::term::fg_red_string;
use mini_textviewer::term::fg_white_string;
use mini_textviewer::term::goto_string;
use mini_textviewer::term::reset_string;
use mini_textviewer::term::u16_to_string;

#[test]
fn u16_to_string_exact_values() {
    assert_eq!(u16_to_string(0), "0");
    assert_eq!(u16_to_string(7), "7");
    assert_eq!(u16_to_string(10), "10");
    assert_eq!(u16_to_string(123), "123");
    assert_eq!(u16_to_string(65535), "65535");
}

#[test]
fn u16_to_string_agrees_with_std() {
    for n in [0u16, 1, 9, 10, 99, 100, 1000, 12345, 65535] {
        assert_eq!(u16_to_string(n), n.to_string());
    }
}

#[test]
fn goto_agrees_with_termion() {
    for (x, y) in [(1u16, 1u16), (5, 7), (80, 24), (1, 65535)] {
        let from_termion = format!("{}", termion::cursor::Goto(x, y));
        assert_eq!(goto_string(x, y), from_termion);
    }
}

#[test]
fn escape_wrappers_match_their_contracts() {
    assert_eq!(clear_all_string(), "\x1b[2J");
    assert_eq!(bold_string(), "\x1b[1m");
    assert_eq!(reset_string(), "\x1b[m");
}

#[test]
fn color_wrappers_match_their_contracts() {
    // The color escapes are written only while the environment has not
    // disabled color; either way both wrappers must agree on which.
    let white = fg_white_string();
    let red = fg_red_string();
    assert!(white == "\x1b[38;5;7m" || white.is_empty());
    assert!(red == "\x1b[38;5;1m" || red.is_empty());
    assert_eq!(white.is_empty(), red.is_empty());
}
