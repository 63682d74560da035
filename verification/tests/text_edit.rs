use chatbox::text_edit::{EditOp, TextEditBuffer};

fn type_in(buffer: &mut TextEditBuffer, text: &str) {
    for c in text.chars() {
        assert!(buffer.insert_char(c));
    }
}

#[test]
fn insert_abc_then_delete_twice_leaves_a() {
    let mut buffer = TextEditBuffer::new("");
    type_in(&mut buffer, "abc");
    assert_eq!(buffer.text(), "abc");
    assert_eq!(buffer.cursor(), 3);
    assert!(buffer.delete_backward());
    assert!(buffer.delete_backward());
    assert_eq!(buffer.text(), "a");
    assert_eq!(buffer.cursor(), 1);
}

#[test]
fn new_buffer_has_cursor_at_end() {
    let buffer = TextEditBuffer::new("hello");
    assert_eq!(buffer.text(), "hello");
    assert_eq!(buffer.cursor(), 5);
}

#[test]
fn delete_backward_at_start_changes_nothing() {
    let mut buffer = TextEditBuffer::new("");
    assert!(!buffer.delete_backward());
    assert_eq!(buffer.text(), "");
    assert_eq!(buffer.cursor(), 0);

    let mut buffer = TextEditBuffer::new("xy");
    buffer.move_left();
    buffer.move_left();
    assert_eq!(buffer.cursor(), 0);
    assert!(!buffer.delete_backward());
    assert_eq!(buffer.text(), "xy");
    assert_eq!(buffer.cursor(), 0);
}

#[test]
fn moves_stop_at_both_ends() {
    let mut buffer = TextEditBuffer::new("ab");
    assert!(!buffer.move_right());
    assert_eq!(buffer.cursor(), 2);
    assert!(!buffer.move_left());
    assert_eq!(buffer.cursor(), 1);
    assert!(!buffer.move_left());
    assert_eq!(buffer.cursor(), 0);
    assert!(!buffer.move_left());
    assert_eq!(buffer.cursor(), 0);
    assert!(!buffer.move_right());
    assert_eq!(buffer.cursor(), 1);
    assert_eq!(buffer.text(), "ab");
}

#[test]
fn insert_goes_in_at_the_cursor() {
    let mut buffer = TextEditBuffer::new("ac");
    buffer.move_left();
    assert!(buffer.insert_char('b'));
    assert_eq!(buffer.text(), "abc");
    assert_eq!(buffer.cursor(), 2);
    assert!(buffer.insert_newline());
    assert_eq!(buffer.text(), "ab\nc");
    assert_eq!(buffer.cursor(), 3);
}

#[test]
fn delete_backward_removes_the_character_before_the_cursor() {
    let mut buffer = TextEditBuffer::new("abc");
    buffer.move_left();
    assert!(buffer.delete_backward());
    assert_eq!(buffer.text(), "ac");
    assert_eq!(buffer.cursor(), 1);
}

#[test]
fn cursor_counts_characters_not_bytes() {
    let mut buffer = TextEditBuffer::new("héé");
    assert_eq!(buffer.cursor(), 3);
    assert!(buffer.delete_backward());
    assert_eq!(buffer.text(), "hé");
    buffer.move_left();
    assert!(buffer.insert_char('ü'));
    assert_eq!(buffer.text(), "hüé");
    assert_eq!(buffer.cursor(), 2);
}

#[test]
fn cursor_stays_within_content_over_many_operations() {
    let ops = [
        EditOp::MoveLeft,
        EditOp::DeleteBackward,
        EditOp::InsertChar('a'),
        EditOp::MoveRight,
        EditOp::MoveRight,
        EditOp::InsertNewline,
        EditOp::MoveLeft,
        EditOp::MoveLeft,
        EditOp::MoveLeft,
        EditOp::DeleteBackward,
        EditOp::InsertChar('b'),
        EditOp::DeleteBackward,
        EditOp::DeleteBackward,
        EditOp::MoveRight,
        EditOp::DeleteBackward,
        EditOp::DeleteBackward,
        EditOp::DeleteBackward,
    ];
    let mut buffer = TextEditBuffer::new("");
    for round in 0..3 {
        for op in ops.iter() {
            buffer.apply(*op);
            assert!(buffer.cursor() <= buffer.text().chars().count(), "round {}", round);
        }
    }
}

#[test]
fn apply_reports_changes_of_content_only() {
    let mut buffer = TextEditBuffer::new("");
    assert!(!buffer.apply(EditOp::DeleteBackward));
    assert!(buffer.apply(EditOp::InsertChar('x')));
    assert!(buffer.apply(EditOp::InsertNewline));
    assert!(!buffer.apply(EditOp::MoveLeft));
    assert!(!buffer.apply(EditOp::MoveRight));
    assert!(buffer.apply(EditOp::DeleteBackward));
    assert_eq!(buffer.text(), "x");
}

#[test]
fn insert_then_delete_restores_the_buffer() {
    let mut buffer = TextEditBuffer::new("hello");
    buffer.move_left();
    buffer.move_left();
    buffer.insert_char('!');
    buffer.delete_backward();
    assert_eq!(buffer.text(), "hello");
    assert_eq!(buffer.cursor(), 3);
}
