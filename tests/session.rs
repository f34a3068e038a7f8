use eish::{Key, Piece, Shell, Step};

fn shell_with(history: &[&str]) -> Shell {
    let mut sh = Shell::new("/tmp".to_string());
    sh.history = history.iter().map(|s| s.to_string()).collect();
    sh
}

fn press(sh: &mut Shell, session: &mut eish::EditSession, keys: &[Key]) -> Step {
    let mut last = Step::Continue;
    for k in keys {
        last = sh.handle_key(session, *k);
    }
    last
}

fn type_text(sh: &mut Shell, session: &mut eish::EditSession, text: &str) {
    for c in text.chars() {
        assert_eq!(sh.handle_key(session, Key::Char(c)), Step::Continue);
    }
}

fn buffer_text(session: &eish::EditSession) -> String {
    session.buffer.text.iter().collect()
}

#[test]
fn begin_adds_tail_slot() {
    let mut sh = shell_with(&["ls"]);
    let s = sh.begin_input();
    assert_eq!(sh.history, vec!["ls".to_string(), String::new()]);
    assert_eq!(s.input_index, 1);
    assert_eq!(s.position, 1);
}

#[test]
fn up_twice_then_enter_from_first_entry_appends() {
    let mut sh = shell_with(&["ls", "cd /tmp"]);
    let mut s = sh.begin_input();
    press(&mut sh, &mut s, &[Key::Up, Key::Up]);
    assert_eq!(buffer_text(&s), "ls");
    let r = sh.handle_key(&mut s, Key::Enter);
    assert_eq!(r, Step::Submitted("ls".to_string()));
    assert_eq!(sh.history, vec!["ls", "cd /tmp", "ls"]);
}

#[test]
fn resubmitting_text_of_entry_above_drops_tail() {
    let mut sh = shell_with(&["ls", "ls"]);
    let mut s = sh.begin_input();
    press(&mut sh, &mut s, &[Key::Up]);
    let r = sh.handle_key(&mut s, Key::Enter);
    assert_eq!(r, Step::Submitted("ls".to_string()));
    assert_eq!(sh.history, vec!["ls", "ls"]);
}

#[test]
fn typing_last_entry_again_keeps_one_record() {
    let mut sh = shell_with(&["pwd"]);
    let mut s = sh.begin_input();
    type_text(&mut sh, &mut s, "pwd");
    sh.handle_key(&mut s, Key::Enter);
    assert_eq!(sh.history, vec!["pwd"]);
}

#[test]
fn edited_recall_appends() {
    let mut sh = shell_with(&["a", "b"]);
    let mut s = sh.begin_input();
    press(&mut sh, &mut s, &[Key::Up, Key::Char('x'), Key::Backspace]);
    let r = sh.handle_key(&mut s, Key::Enter);
    assert_eq!(r, Step::Submitted("b".to_string()));
    assert_eq!(sh.history, vec!["a", "b", "b"]);
}

#[test]
fn up_then_down_restores_line() {
    let mut sh = shell_with(&["one", "two", "three"]);
    let mut s = sh.begin_input();
    type_text(&mut sh, &mut s, "draft");
    press(&mut sh, &mut s, &[Key::Up, Key::Up]);
    assert_eq!(buffer_text(&s), "two");
    press(&mut sh, &mut s, &[Key::Down, Key::Down]);
    assert_eq!(buffer_text(&s), "draft");
    assert_eq!(s.position, 3);
}

#[test]
fn up_past_top_then_down_restores_line() {
    let mut sh = shell_with(&["one"]);
    let mut s = sh.begin_input();
    type_text(&mut sh, &mut s, "x");
    press(&mut sh, &mut s, &[Key::Up, Key::Up, Key::Up]);
    assert_eq!(buffer_text(&s), "one");
    press(&mut sh, &mut s, &[Key::Down, Key::Down, Key::Down]);
    assert_eq!(buffer_text(&s), "x");
}

#[test]
fn navigation_on_empty_history_does_nothing() {
    let mut sh = shell_with(&[]);
    let mut s = sh.begin_input();
    type_text(&mut sh, &mut s, "ab");
    press(&mut sh, &mut s, &[Key::Up, Key::Down]);
    assert_eq!(buffer_text(&s), "ab");
    assert_eq!(s.buffer.cursor, 2);
}

#[test]
fn enter_on_plain_line_sets_tail() {
    let mut sh = shell_with(&["ls"]);
    let mut s = sh.begin_input();
    type_text(&mut sh, &mut s, "echo hi");
    let r = sh.handle_key(&mut s, Key::Enter);
    assert_eq!(r, Step::Submitted("echo hi".to_string()));
    assert_eq!(sh.history, vec!["ls", "echo hi"]);
}

#[test]
fn control_d_on_empty_line_exits() {
    let mut sh = shell_with(&[]);
    let mut s = sh.begin_input();
    assert_eq!(sh.handle_key(&mut s, Key::Control('d')), Step::Exit);
}

#[test]
fn control_d_on_non_empty_line_is_ignored() {
    let mut sh = shell_with(&[]);
    let mut s = sh.begin_input();
    type_text(&mut sh, &mut s, "a");
    assert_eq!(sh.handle_key(&mut s, Key::Control('d')), Step::Continue);
    assert_eq!(buffer_text(&s), "a");
}

#[test]
fn control_c_clears_line_and_writes_newline() {
    let mut sh = shell_with(&[]);
    let mut s = sh.begin_input();
    type_text(&mut sh, &mut s, "abc");
    sh.output.clear();
    assert_eq!(sh.handle_key(&mut s, Key::Control('c')), Step::Continue);
    assert_eq!(buffer_text(&s), "");
    assert_eq!(s.buffer.cursor, 0);
    assert_eq!(sh.output, vec![Piece::Text("\r\n".to_string())]);
}

#[test]
fn control_l_clears_screen() {
    let mut sh = shell_with(&[]);
    let mut s = sh.begin_input();
    sh.output.clear();
    sh.handle_key(&mut s, Key::Control('l'));
    assert_eq!(sh.output, vec![Piece::ClearScreen, Piece::CursorHome]);
}

#[test]
fn other_keys_are_ignored() {
    let mut sh = shell_with(&[]);
    let mut s = sh.begin_input();
    type_text(&mut sh, &mut s, "q");
    assert_eq!(sh.handle_key(&mut s, Key::Other), Step::Continue);
    assert_eq!(sh.handle_key(&mut s, Key::Control('z')), Step::Continue);
    assert_eq!(buffer_text(&s), "q");
}

#[test]
fn submitted_line_collapses_frame() {
    let mut sh = shell_with(&[]);
    let mut s = sh.begin_input();
    type_text(&mut sh, &mut s, "ls");
    sh.output.clear();
    sh.handle_key(&mut s, Key::Enter);
    assert_eq!(
        sh.output,
        vec![
            Piece::Text("\r\n".to_string()),
            Piece::Text("\x1b[2F\x1b[2K".to_string()),
            Piece::Painted(eish::Color::Magenta, "~>".to_string()),
            Piece::Text(" ".to_string()),
            Piece::Text("ls".to_string()),
            Piece::Text("\r\n\x1b[2K".to_string()),
        ]
    );
}
