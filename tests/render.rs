use eish::render::decimal_string;
use eish::{Color, Piece, Shell};

#[test]
fn decimal_numbers() {
    assert_eq!(decimal_string(0), "0");
    assert_eq!(decimal_string(7), "7");
    assert_eq!(decimal_string(1234), "1234");
    assert_eq!(decimal_string(usize::MAX), usize::MAX.to_string());
}

fn frame(lead: &str, cursor: &str, len: &str, path: &str, text: &str) -> Vec<Piece> {
    vec![
        Piece::Text(lead.to_string()),
        Piece::Painted(Color::Blue, cursor.to_string()),
        Piece::Text("-".to_string()),
        Piece::Painted(Color::Red, len.to_string()),
        Piece::Text(" ".to_string()),
        Piece::Painted(Color::Green, path.to_string()),
        Piece::Text("\r\n\x1b[2K".to_string()),
        Piece::Painted(Color::Magenta, "~>".to_string()),
        Piece::Text(" ".to_string()),
        Piece::Text(text.to_string()),
    ]
}

#[test]
fn first_frame_of_empty_line() {
    let mut sh = Shell::new("/srv".to_string());
    sh.begin_input();
    assert_eq!(sh.output, frame("\r\x1b[2K", "0", "0", "/srv", ""));
}

#[test]
fn redraw_moves_cursor_back() {
    let mut sh = Shell::new("/srv".to_string());
    let mut s = sh.begin_input();
    for c in "abcd".chars() {
        sh.handle_key(&mut s, eish::Key::Char(c));
    }
    sh.handle_key(&mut s, eish::Key::Left);
    sh.handle_key(&mut s, eish::Key::Left);
    sh.output.clear();
    sh.redraw(&s);
    let mut expected = frame("\x1b[F\x1b[2K", "2", "4", "/srv", "abcd");
    expected.push(Piece::CursorLeft(2));
    assert_eq!(sh.output, expected);
}

#[test]
fn redraw_at_end_has_no_cursor_move() {
    let mut sh = Shell::new("/".to_string());
    let mut s = sh.begin_input();
    sh.handle_key(&mut s, eish::Key::Char('é'));
    sh.output.clear();
    sh.redraw(&s);
    assert_eq!(sh.output, frame("\x1b[F\x1b[2K", "1", "1", "/", "é"));
}
