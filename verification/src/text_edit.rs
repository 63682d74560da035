//! The editing state behind a text input: content and a cursor.
//!
//! The cursor is an index into the characters of the content, from 0 (before
//! the first character) to the number of characters (after the last one).

use crate::chars::{append_chars, chars_of, string_of};
use vstd::prelude::*;

verus! {

/// What a buffer holds: the characters of its content and the cursor.
pub struct EditState {
    pub content: Seq<char>,
    pub cursor: int,
}

/// One operation on a buffer.
#[derive(Clone, Copy, Debug, PartialEq, Eq, Structural)]
pub enum EditOp {
    InsertChar(char),
    InsertNewline,
    DeleteBackward,
    MoveLeft,
    MoveRight,
}

impl EditState {
    /// The cursor lies within the content or just after it.
    pub open spec fn wf(self) -> bool {
        0 <= self.cursor <= self.content.len()
    }

    /// `c` is put in at the cursor, and the cursor moves past it.
    pub open spec fn insert(self, c: char) -> EditState {
        EditState { content: self.content.insert(self.cursor, c), cursor: self.cursor + 1 }
    }

    /// The character before the cursor leaves, and the cursor moves back by
    /// one. With the cursor at 0 nothing changes.
    pub open spec fn delete_backward(self) -> EditState {
        if self.cursor <= 0 {
            self
        } else {
            EditState { content: self.content.remove(self.cursor - 1), cursor: self.cursor - 1 }
        }
    }

    /// The cursor moves back by one, but not below 0.
    pub open spec fn move_left(self) -> EditState {
        if self.cursor <= 0 {
            self
        } else {
            EditState { content: self.content, cursor: self.cursor - 1 }
        }
    }

    /// The cursor moves forward by one, but not past the end of the content.
    pub open spec fn move_right(self) -> EditState {
        if self.cursor >= self.content.len() {
            self
        } else {
            EditState { content: self.content, cursor: self.cursor + 1 }
        }
    }

    /// The state after `op`.
    pub open spec fn apply(self, op: EditOp) -> EditState {
        match op {
            EditOp::InsertChar(c) => self.insert(c),
            EditOp::InsertNewline => self.insert('\n'),
            EditOp::DeleteBackward => self.delete_backward(),
            EditOp::MoveLeft => self.move_left(),
            EditOp::MoveRight => self.move_right(),
        }
    }

    /// Whether `op` changes the content of this state. Moving the cursor
    /// never does, and neither does deleting with the cursor at 0.
    pub open spec fn changed_by(self, op: EditOp) -> bool {
        match op {
            EditOp::InsertChar(_) => true,
            EditOp::InsertNewline => true,
            EditOp::DeleteBackward => self.cursor > 0,
            EditOp::MoveLeft => false,
            EditOp::MoveRight => false,
        }
    }

    /// The state after each of `ops` in turn.
    pub open spec fn apply_all(self, ops: Seq<EditOp>) -> EditState
        decreases ops.len(),
    {
        if ops.len() == 0 {
            self
        } else {
            self.apply_all(ops.drop_last()).apply(ops.last())
        }
    }
}

/// One operation keeps the cursor within the content, and tells of a change
/// exactly when the content is another afterwards.
pub proof fn lemma_apply_keeps_cursor_in_bounds(state: EditState, op: EditOp)
    requires
        state.wf(),
    ensures
        state.apply(op).wf(),
        state.changed_by(op) <==> state.apply(op).content != state.content,
{
    match op {
        EditOp::InsertChar(c) => {
            assert(state.insert(c).content.len() == state.content.len() + 1);
        },
        EditOp::InsertNewline => {
            assert(state.insert('\n').content.len() == state.content.len() + 1);
        },
        EditOp::DeleteBackward => {
            if state.cursor > 0 {
                assert(state.delete_backward().content.len() == state.content.len() - 1);
            }
        },
        _ => {},
    }
}

/// Whatever operations are made and in whatever order, the cursor stays
/// within the content.
pub proof fn lemma_edits_keep_cursor_in_bounds(state: EditState, ops: Seq<EditOp>)
    requires
        state.wf(),
    ensures
        state.apply_all(ops).wf(),
    decreases ops.len(),
{
    if ops.len() > 0 {
        lemma_edits_keep_cursor_in_bounds(state, ops.drop_last());
        lemma_apply_keeps_cursor_in_bounds(state.apply_all(ops.drop_last()), ops.last());
    }
}

/// Deleting backward right after an insertion gives back the state from
/// before the insertion.
pub proof fn lemma_insert_then_delete(state: EditState, c: char)
    requires
        state.wf(),
    ensures
        state.insert(c).delete_backward() == state,
{
    assert(state.content.insert(state.cursor, c).remove(state.cursor) =~= state.content);
}

/// Editable text with a cursor.
///
/// The characters before the cursor and those after it are kept apart, the
/// latter in reverse order, so that every operation works at the end of a
/// vector and the cursor cannot leave the content.
#[derive(Debug)]
pub struct TextEditBuffer {
    before: Vec<char>,
    after_reversed: Vec<char>,
}

impl View for TextEditBuffer {
    type V = EditState;

    closed spec fn view(&self) -> EditState {
        EditState {
            content: self.before@ + self.after_reversed@.reverse(),
            cursor: self.before@.len() as int,
        }
    }
}

impl TextEditBuffer {
    /// A buffer that holds `prefilled`, with the cursor after its last
    /// character.
    pub fn new(prefilled: &str) -> (buffer: TextEditBuffer)
        ensures
            buffer@.content == prefilled@,
            buffer@.cursor == prefilled@.len(),
            buffer@.wf(),
    {
        let buffer = TextEditBuffer { before: chars_of(prefilled), after_reversed: Vec::new() };
        assert(buffer@.content =~= prefilled@);
        buffer
    }

    /// A buffer's cursor always lies within its content or just after it.
    pub proof fn lemma_wf(&self)
        ensures
            self@.wf(),
    {
    }

    /// The content as a string.
    pub fn text(&self) -> (text: String)
        ensures
            text@ == self@.content,
    {
        let content = self.chars();
        string_of(&content)
    }

    /// The characters of the content, in order.
    pub fn chars(&self) -> (content: Vec<char>)
        ensures
            content@ == self@.content,
    {
        let mut content: Vec<char> = Vec::new();
        append_chars(&mut content, &self.before);
        let mut i: usize = self.after_reversed.len();
        while i > 0
            invariant
                i <= self.after_reversed.len(),
                content@ == self.before@ + self.after_reversed@.reverse().take(
                    self.after_reversed.len() - i,
                ),
            decreases i,
        {
            i -= 1;
            content.push(self.after_reversed[i]);
            assert(content@ =~= self.before@ + self.after_reversed@.reverse().take(
                self.after_reversed.len() - i,
            ));
        }
        assert(content@ =~= self@.content);
        content
    }

    /// The cursor: how many characters of the content stand before it.
    pub fn cursor(&self) -> (cursor: usize)
        ensures
            cursor == self@.cursor,
            self@.wf(),
    {
        self.before.len()
    }

    /// Puts `c` in at the cursor and moves the cursor past it. The content
    /// has changed, so the result is `true`.
    pub fn insert_char(&mut self, c: char) -> (changed: bool)
        ensures
            final(self)@ == old(self)@.insert(c),
            final(self)@.wf(),
            changed,
    {
        self.before.push(c);
        assert(self@.content =~= old(self)@.content.insert(old(self)@.cursor, c));
        true
    }

    /// Puts a line break in at the cursor and moves the cursor past it.
    pub fn insert_newline(&mut self) -> (changed: bool)
        ensures
            final(self)@ == old(self)@.insert('\n'),
            final(self)@.wf(),
            changed,
    {
        self.insert_char('\n')
    }

    /// Removes the character before the cursor and moves the cursor back by
    /// one. With the cursor at 0 nothing changes, and the result is `false`.
    pub fn delete_backward(&mut self) -> (changed: bool)
        ensures
            final(self)@ == old(self)@.delete_backward(),
            final(self)@.wf(),
            changed == (old(self)@.cursor > 0),
    {
        match self.before.pop() {
            Some(_) => {
                assert(self@.content =~= old(self)@.content.remove(old(self)@.cursor - 1));
                true
            },
            None => false,
        }
    }

    /// Moves the cursor back by one, but not below 0. The content stays as
    /// it is, so the result is `false`.
    pub fn move_left(&mut self) -> (changed: bool)
        ensures
            final(self)@ == old(self)@.move_left(),
            final(self)@.wf(),
            !changed,
    {
        match self.before.pop() {
            Some(c) => {
                self.after_reversed.push(c);
                assert(self@.content =~= old(self)@.content);
            },
            None => {},
        }
        false
    }

    /// Moves the cursor forward by one, but not past the end of the content.
    /// The content stays as it is, so the result is `false`.
    pub fn move_right(&mut self) -> (changed: bool)
        ensures
            final(self)@ == old(self)@.move_right(),
            final(self)@.wf(),
            !changed,
    {
        match self.after_reversed.pop() {
            Some(c) => {
                self.before.push(c);
                assert(self@.content =~= old(self)@.content);
            },
            None => {
                assert(self@.content =~= self.before@);
            },
        }
        false
    }

    /// Makes `op`, and says whether the content changed.
    pub fn apply(&mut self, op: EditOp) -> (changed: bool)
        ensures
            final(self)@ == old(self)@.apply(op),
            final(self)@.wf(),
            changed == old(self)@.changed_by(op),
    {
        match op {
            EditOp::InsertChar(c) => self.insert_char(c),
            EditOp::InsertNewline => self.insert_newline(),
            EditOp::DeleteBackward => self.delete_backward(),
            EditOp::MoveLeft => self.move_left(),
            EditOp::MoveRight => self.move_right(),
        }
    }
}

} // verus!
