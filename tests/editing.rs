use eish::EditBuffer;

fn line(b: &EditBuffer) -> String {
    b.text.iter().collect()
}

#[test]
fn typing_at_end_moves_cursor_with_length() {
    let mut b = EditBuffer::new();
    for (n, c) in "hello".chars().enumerate() {
        b.insert(c);
        assert_eq!(b.cursor, n + 1);
        assert_eq!(b.text.len(), n + 1);
    }
    assert_eq!(line(&b), "hello");
}

#[test]
fn insert_in_middle() {
    let mut b = EditBuffer::new();
    b.insert('a');
    b.insert('c');
    b.move_left();
    b.insert('b');
    assert_eq!(line(&b), "abc");
    assert_eq!(b.cursor, 2);
}

#[test]
fn left_then_right_is_no_op() {
    let mut b = EditBuffer::new();
    for c in "abc".chars() {
        b.insert(c);
    }
    for start in 1..=3 {
        b.cursor = start;
        b.move_left();
        b.move_right();
        assert_eq!(b.cursor, start);
        assert_eq!(line(&b), "abc");
    }
}

#[test]
fn moves_are_clamped() {
    let mut b = EditBuffer::new();
    b.insert('x');
    b.move_right();
    assert_eq!(b.cursor, 1);
    b.move_left();
    b.move_left();
    assert_eq!(b.cursor, 0);
}

#[test]
fn backspace_on_empty_line_changes_nothing() {
    let mut b = EditBuffer::new();
    b.delete_before_cursor();
    assert_eq!(b.cursor, 0);
    assert!(b.text.is_empty());
}

#[test]
fn backspace_removes_char_before_cursor() {
    let mut b = EditBuffer::new();
    for c in "abc".chars() {
        b.insert(c);
    }
    b.move_left();
    b.delete_before_cursor();
    assert_eq!(line(&b), "ac");
    assert_eq!(b.cursor, 1);
}

#[test]
fn backspace_at_start_of_non_empty_line_changes_nothing() {
    let mut b = EditBuffer::new();
    b.insert('a');
    b.move_left();
    b.delete_before_cursor();
    assert_eq!(line(&b), "a");
    assert_eq!(b.cursor, 0);
}

#[test]
fn clear_and_replace() {
    let mut b = EditBuffer::new();
    b.insert('a');
    b.clear();
    assert_eq!(b.cursor, 0);
    assert!(b.text.is_empty());
    b.replace_with("xyz".chars().collect());
    assert_eq!(line(&b), "xyz");
    assert_eq!(b.cursor, 3);
}
