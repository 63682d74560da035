//! One frame of input from the host, as plain values, and what a widget
//! reports back.

use crate::screen::{ScreenDims, ScreenPt};
use crate::text_edit::EditOp;
use vstd::prelude::*;

verus! {

/// A key of the keyboard.
#[derive(Clone, Copy, Debug, PartialEq, Eq)]
pub enum Key {
    LeftArrow,
    RightArrow,
    Backspace,
    Enter,
    /// Any other key, with the character that the keyboard layout gives it
    /// alone and together with shift. A key that writes nothing has none.
    Other { plain: Option<char>, shifted: Option<char> },
}

impl Key {
    /// The character that the key writes, if it writes one.
    pub open spec fn spec_to_char(self, shift: bool) -> Option<char> {
        match self {
            Key::Other { plain, shifted } => if shift {
                shifted
            } else {
                plain
            },
            _ => None,
        }
    }

    /// What the key does to a text buffer: the arrows move the cursor,
    /// backspace deletes, enter breaks the line, and any other key inserts
    /// the character that it writes. A key that writes nothing does nothing.
    pub open spec fn spec_edit_op(self, shift: bool) -> Option<EditOp> {
        match self {
            Key::LeftArrow => Some(EditOp::MoveLeft),
            Key::RightArrow => Some(EditOp::MoveRight),
            Key::Backspace => Some(EditOp::DeleteBackward),
            Key::Enter => Some(EditOp::InsertNewline),
            Key::Other { .. } => match self.spec_to_char(shift) {
                Some(c) => Some(EditOp::InsertChar(c)),
                None => None,
            },
        }
    }

    #[verifier::when_used_as_spec(spec_to_char)]
    pub fn to_char(self, shift: bool) -> (c: Option<char>)
        ensures
            c == self.spec_to_char(shift),
    {
        match self {
            Key::Other { plain, shifted } => if shift {
                shifted
            } else {
                plain
            },
            _ => None,
        }
    }

    #[verifier::when_used_as_spec(spec_edit_op)]
    pub fn edit_op(self, shift: bool) -> (op: Option<EditOp>)
        ensures
            op == self.spec_edit_op(shift),
    {
        match self {
            Key::LeftArrow => Some(EditOp::MoveLeft),
            Key::RightArrow => Some(EditOp::MoveRight),
            Key::Backspace => Some(EditOp::DeleteBackward),
            Key::Enter => Some(EditOp::InsertNewline),
            Key::Other { .. } => match self.to_char(shift) {
                Some(c) => Some(EditOp::InsertChar(c)),
                None => None,
            },
        }
    }
}

/// A button of the chat panel.
#[derive(Clone, Copy, Debug, PartialEq, Eq, Structural)]
pub enum Button {
    Smaller,
    Larger,
    Send,
}

/// What the host knows of the current frame.
#[derive(Clone, Copy, Debug)]
pub struct EventCtx {
    /// Whether widgets are to work out anew what the pointer is over.
    pub redo_mouseover: bool,
    /// Where the pointer is, if it is over the window.
    pub cursor: Option<ScreenPt>,
    /// The key pressed in this frame, until a widget takes it.
    pub pressed: Option<Key>,
    pub left_shift_down: bool,
    /// The button clicked in this frame, until the panel takes it.
    pub clicked: Option<Button>,
    pub window: ScreenDims,
}

impl EventCtx {
    /// A frame in which nothing happens, in a window of the given size.
    pub fn idle(window: ScreenDims) -> (ctx: EventCtx)
        ensures
            ctx == (EventCtx {
                redo_mouseover: false,
                cursor: None,
                pressed: None,
                left_shift_down: false,
                clicked: None,
                window,
            }),
    {
        EventCtx {
            redo_mouseover: false,
            cursor: None,
            pressed: None,
            left_shift_down: false,
            clicked: None,
            window,
        }
    }
}

/// What came of an event.
#[derive(Debug)]
pub enum Outcome {
    Nothing,
    /// The content of the widget with this label changed.
    Changed(String),
    Clicked(Button),
}

/// What an `Outcome` is, with the label as its characters.
pub enum OutcomeView {
    Nothing,
    Changed(Seq<char>),
    Clicked(Button),
}

impl View for Outcome {
    type V = OutcomeView;

    open spec fn view(&self) -> OutcomeView {
        match *self {
            Outcome::Nothing => OutcomeView::Nothing,
            Outcome::Changed(label) => OutcomeView::Changed(label@),
            Outcome::Clicked(button) => OutcomeView::Clicked(button),
        }
    }
}

/// Where a widget leaves what came of an event.
#[derive(Debug)]
pub struct WidgetOutput {
    pub outcome: Outcome,
}

impl WidgetOutput {
    pub fn new() -> (output: WidgetOutput)
        ensures
            output.outcome@ == OutcomeView::Nothing,
    {
        WidgetOutput { outcome: Outcome::Nothing }
    }
}

} // verus!
