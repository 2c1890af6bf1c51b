use mini_textviewer::viewer::Direction;
use mini_textviewer::viewer::KeyEvent;
use mini_textviewer::viewer::Step;
use mini_textviewer::viewer::TextViewer;

fn sample_viewer() -> TextViewer {
    TextViewer::new("foo\nbar\nbaz\n", "a.txt".to_string(), 80, 24)
}

#[test]
fn initial_cursor_bottom_of_document() {
    let v = sample_viewer();
    assert_eq!(v.cur_pos.x, 1);
    assert_eq!(v.cur_pos.y, 3);
    assert_eq!(v.doc_length, 3);
    assert_eq!(v.terminal_size.x, 80);
    assert_eq!(v.terminal_size.y, 24);
}

#[test]
fn render_shows_header_lines_and_footer() {
    let v = sample_viewer();
    let frame = v.show_document();
    assert!(frame.contains("Welcome to Mini text viewer!"));
    assert!(frame.contains("foo\r\nbar\r\nbaz\r\n"));
    assert!(frame.contains(" line-count: 3 Filename: a.txt"));
    let header_at = frame.find("Welcome to Mini text viewer!").unwrap();
    let first_line_at = frame.find("foo").unwrap();
    let footer_at = frame.find(" line-count: ").unwrap();
    assert!(header_at < first_line_at);
    assert!(first_line_at < footer_at);
}

#[test]
fn render_exact_frame() {
    let v = TextViewer::new("hi\n", "f.txt".to_string(), 10, 5);
    // The color prefixes are whatever the viewer captured at
    // construction: the escape, or empty when color is disabled.
    assert!(v.fg_white == "\x1b[38;5;7m" || v.fg_white.is_empty());
    assert!(v.fg_red == "\x1b[38;5;1m" || v.fg_red.is_empty());
    let mut expected = String::new();
    expected.push_str("\x1b[2J");
    expected.push_str("\x1b[1;1H");
    expected.push_str(&v.fg_white);
    expected.push_str("Welcome to Mini text viewer!");
    expected.push_str("\x1b[m");
    expected.push_str("\n");
    expected.push_str("hi\r\n");
    expected.push_str("\x1b[3;0H");
    expected.push_str("\n");
    expected.push_str(&v.fg_red);
    expected.push_str("\x1b[1m");
    expected.push_str(" line-count: 1 Filename: f.txt");
    expected.push_str("\x1b[m");
    expected.push_str("\n");
    expected.push_str("\x1b[1;1H");
    expected.push_str("\n");
    assert_eq!(v.show_document(), expected);
}

#[test]
fn render_is_idempotent() {
    let v = sample_viewer();
    assert_eq!(v.show_document(), v.show_document());
}

#[test]
fn move_up_at_top_stays() {
    let mut v = TextViewer::new("", "e.txt".to_string(), 80, 24);
    assert_eq!((v.cur_pos.x, v.cur_pos.y), (1, 0));
    v.dec_y();
    assert_eq!((v.cur_pos.x, v.cur_pos.y), (1, 0));
}

#[test]
fn moves_clamp_at_all_bounds() {
    let mut v = sample_viewer();
    for _ in 0..200 {
        v.dec_x();
    }
    assert_eq!(v.cur_pos.x, 0);
    for _ in 0..200 {
        v.inc_x();
    }
    assert_eq!(v.cur_pos.x, 80);
    for _ in 0..200 {
        v.dec_y();
    }
    assert_eq!(v.cur_pos.y, 0);
    for _ in 0..200 {
        v.inc_y();
    }
    assert_eq!(v.cur_pos.y, 24);
}

#[test]
fn move_emits_cursor_escape() {
    let mut v = sample_viewer();
    let out = v.inc_x();
    assert_eq!(out, "\x1b[3;2H\n");
}

#[test]
fn set_pos_places_cursor() {
    let mut v = sample_viewer();
    let out = v.set_pos(4, 2);
    assert_eq!((v.cur_pos.x, v.cur_pos.y), (4, 2));
    assert_eq!(out, "\x1b[2;4H\n");
}

#[test]
fn interrupt_quits_without_rendering() {
    let mut v = sample_viewer();
    let step = v.handle_key(KeyEvent::Interrupt);
    assert!(matches!(step, Step::Quit));
    assert_eq!((v.cur_pos.x, v.cur_pos.y), (1, 3));
}

#[test]
fn unmapped_key_is_ignored() {
    let mut v = sample_viewer();
    let step = v.handle_key(KeyEvent::Other);
    assert!(matches!(step, Step::Ignore));
    assert_eq!((v.cur_pos.x, v.cur_pos.y), (1, 3));
}

#[test]
fn arrow_key_moves_and_rerenders() {
    let mut v = sample_viewer();
    let step = v.handle_key(KeyEvent::Arrow(Direction::Right));
    assert_eq!((v.cur_pos.x, v.cur_pos.y), (2, 3));
    match step {
        Step::Output(out) => {
            let mut expected = String::from("\x1b[3;2H\n");
            expected.push_str(&v.show_document());
            assert_eq!(out, expected);
        }
        _ => panic!("an arrow key must produce output"),
    }
}

#[test]
fn arrow_key_at_boundary_still_rerenders() {
    let mut v = sample_viewer();
    for _ in 0..3 {
        v.handle_key(KeyEvent::Arrow(Direction::Up));
    }
    assert_eq!(v.cur_pos.y, 0);
    let step = v.handle_key(KeyEvent::Arrow(Direction::Up));
    assert_eq!(v.cur_pos.y, 0);
    assert!(matches!(step, Step::Output(_)));
}

#[test]
fn try_new_checks_the_bounds() {
    assert!(TextViewer::try_new("a\n", "a.txt".to_string(), 0, 24).is_none());
    assert!(TextViewer::try_new("a\n", "a.txt".to_string(), 80, 1).is_none());
    assert!(TextViewer::try_new("a\nb\nc\n", "a.txt".to_string(), 80, 2).is_none());
    let v = TextViewer::try_new("a\nb\n", "a.txt".to_string(), 80, 2).unwrap();
    assert_eq!(v.doc_length, 2);
    assert_eq!((v.cur_pos.x, v.cur_pos.y), (1, 2));
}
