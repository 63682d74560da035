//! A multi-line text input. Enter breaks the line.
//!
//! The widget has a fixed size. Text that does not fit is wrapped by the
//! host, never scrolled.

use crate::chars::{split, split_on, texts};
use crate::input::{EventCtx, Outcome, OutcomeView, WidgetOutput};
use crate::screen::{EdgeInsets, ScreenDims, ScreenPt, ScreenRectangle};
use crate::text_edit::{EditOp, EditState, TextEditBuffer};
use vstd::prelude::*;

verus! {

/// The glyph drawn where the cursor is.
pub const CURSOR_GLYPH: char = '|';

/// The padding above the text, in pixels.
pub const PADDING_TOP: u32 = 6;

/// The padding left of the text, in pixels.
pub const PADDING_LEFT: u32 = 8;

/// The padding below the text, in pixels.
pub const PADDING_BOTTOM: u32 = 8;

/// The padding right of the text, in pixels.
pub const PADDING_RIGHT: u32 = 8;

/// The radius of the corners of the background plate.
pub const CORNER_RADIUS: u32 = 2;

/// The padding of every text box.
pub open spec fn spec_padding() -> EdgeInsets {
    EdgeInsets {
        top: PADDING_TOP,
        left: PADDING_LEFT,
        bottom: PADDING_BOTTOM,
        right: PADDING_RIGHT,
    }
}

/// What a text box is.
pub struct TextBoxView {
    pub edit: EditState,
    pub label: Seq<char>,
    pub has_focus: bool,
    pub autofocus: bool,
    pub padding: EdgeInsets,
    pub top_left: ScreenPt,
    pub dims: ScreenDims,
}

impl TextBoxView {
    /// A new text box: it holds `prefilled` with the cursor after it, has
    /// not been placed yet and has no focus of its own.
    pub open spec fn fresh(
        label: Seq<char>,
        prefilled: Seq<char>,
        dims: ScreenDims,
        autofocus: bool,
    ) -> TextBoxView {
        TextBoxView {
            edit: EditState { content: prefilled, cursor: prefilled.len() as int },
            label,
            has_focus: false,
            autofocus,
            padding: spec_padding(),
            top_left: ScreenPt { x: 0, y: 0 },
            dims,
        }
    }

    /// Whether the text box takes keys. One with autofocus always does.
    pub open spec fn focused(self) -> bool {
        self.autofocus || self.has_focus
    }

    /// The part of the screen that the text box covers.
    pub open spec fn bounds(self) -> ScreenRectangle {
        ScreenRectangle::spec_top_left(self.top_left, self.dims)
    }

    /// The text box after the frame's hover pass. Where the host asks for
    /// one, a text box without autofocus has the focus exactly if the
    /// pointer is within its bounds. One with autofocus makes no such test.
    pub open spec fn hovered(self, ctx: EventCtx) -> TextBoxView {
        if !self.autofocus && ctx.redo_mouseover {
            TextBoxView {
                has_focus: match ctx.cursor {
                    Some(pt) => self.bounds().spec_contains(pt),
                    None => false,
                },
                ..self
            }
        } else {
            self
        }
    }

    /// What the frame's key does to the text, if the text box takes it. A
    /// text box without focus takes no key, and no text box takes a key that
    /// writes nothing.
    pub open spec fn key_op(self, ctx: EventCtx) -> Option<EditOp> {
        if self.hovered(ctx).focused() {
            match ctx.pressed {
                Some(key) => key.spec_edit_op(ctx.left_shift_down),
                None => None,
            }
        } else {
            None
        }
    }

    /// The text box after the frame.
    pub open spec fn after_event(self, ctx: EventCtx) -> TextBoxView {
        let hovered = self.hovered(ctx);
        match self.key_op(ctx) {
            Some(op) => TextBoxView { edit: hovered.edit.apply(op), ..hovered },
            None => hovered,
        }
    }

    /// Whether the frame changes the content.
    pub open spec fn changed_by_event(self, ctx: EventCtx) -> bool {
        match self.key_op(ctx) {
            Some(op) => self.edit.changed_by(op),
            None => false,
        }
    }

    /// The frame as the text box leaves it: a key that it took is gone, and
    /// one that it did not take is still there for others.
    pub open spec fn ctx_after_event(self, ctx: EventCtx) -> EventCtx {
        if self.key_op(ctx) is Some {
            EventCtx { pressed: None, ..ctx }
        } else {
            ctx
        }
    }

    /// What a widget's output holds after the frame, `before` being what it
    /// held: the change of content, if there was one.
    pub open spec fn outcome_after_event(self, ctx: EventCtx, before: OutcomeView) -> OutcomeView {
        if self.changed_by_event(ctx) {
            OutcomeView::Changed(self.label)
        } else {
            before
        }
    }

    /// The content with the cursor glyph put in where the cursor is.
    pub open spec fn display(self) -> Seq<char> {
        self.edit.content.insert(self.edit.cursor, CURSOR_GLYPH)
    }

    /// The width to which the host wraps the lines: what the padding leaves
    /// of the widget's width, and at least one pixel.
    pub open spec fn wrap_limit(self) -> int {
        if self.dims.width - (self.padding.left + self.padding.right) >= 1 {
            self.dims.width - (self.padding.left + self.padding.right)
        } else {
            1
        }
    }

    /// Whether `text` is the text of this text box: the display string cut
    /// at its line breaks, to be wrapped at the wrap limit.
    pub open spec fn shown_as(self, text: Text) -> bool {
        &&& texts(text.lines@) == split(self.display(), '\n')
        &&& text.wrap_to_pixels == self.wrap_limit()
    }

    /// Whether `drawing` is the picture of this text box: a plate of the
    /// widget's size at its place, dimmed unless the text box is focused,
    /// and on it the text, set in by the left and top padding.
    pub open spec fn drawn_as(self, drawing: TextBoxDrawing) -> bool {
        &&& drawing.top_left == self.top_left
        &&& drawing.dims == self.dims
        &&& drawing.dimmed == !self.focused()
        &&& drawing.corner_radius == CORNER_RADIUS
        &&& self.shown_as(drawing.text)
        &&& drawing.text_left == self.padding.left
        &&& drawing.text_top == self.padding.top
    }
}

/// Lines of text for the host to wrap and lay out.
#[derive(Debug)]
pub struct Text {
    /// The lines, from top to bottom.
    pub lines: Vec<String>,
    /// The width in pixels at which the host wraps each line.
    pub wrap_to_pixels: u32,
}

/// What the host is to draw for a text box.
#[derive(Debug)]
pub struct TextBoxDrawing {
    /// Where the top-left corner of the background plate goes.
    pub top_left: ScreenPt,
    /// The size of the plate and of its outline.
    pub dims: ScreenDims,
    /// Whether the plate is drawn in the dull colour of a widget without
    /// focus.
    pub dimmed: bool,
    pub corner_radius: u32,
    pub text: Text,
    /// How far right of the plate's corner the text starts.
    pub text_left: u32,
    /// How far below the plate's corner the text starts.
    pub text_top: u32,
}

/// A multi-line text input.
#[derive(Debug)]
pub struct MultilineTextBox {
    buffer: TextEditBuffer,
    label: String,
    has_focus: bool,
    autofocus: bool,
    padding: EdgeInsets,
    top_left: ScreenPt,
    dims: ScreenDims,
}

impl View for MultilineTextBox {
    type V = TextBoxView;

    closed spec fn view(&self) -> TextBoxView {
        TextBoxView {
            edit: self.buffer@,
            label: self.label@,
            has_focus: self.has_focus,
            autofocus: self.autofocus,
            padding: self.padding,
            top_left: self.top_left,
            dims: self.dims,
        }
    }
}

/// A text box under a name, as it stands in a panel.
#[derive(Debug)]
pub struct Widget {
    name: String,
    text_box: MultilineTextBox,
}

/// What a widget is.
pub struct WidgetView {
    pub name: Seq<char>,
    pub text_box: TextBoxView,
}

impl View for Widget {
    type V = WidgetView;

    closed spec fn view(&self) -> WidgetView {
        WidgetView { name: self.name@, text_box: self.text_box@ }
    }
}

impl Widget {
    pub fn name(&self) -> (name: &str)
        ensures
            name@ == self@.name,
    {
        self.name.as_str()
    }

    pub fn text_box(&self) -> (text_box: &MultilineTextBox)
        ensures
            text_box@ == self@.text_box,
    {
        &self.text_box
    }

    /// Hands the frame to the text box.
    pub fn event(&mut self, ctx: &mut EventCtx, output: &mut WidgetOutput)
        ensures
            final(self)@.name == old(self)@.name,
            final(self)@.text_box == old(self)@.text_box.after_event(*old(ctx)),
            *final(ctx) == old(self)@.text_box.ctx_after_event(*old(ctx)),
            final(output).outcome@ == old(self)@.text_box.outcome_after_event(
                *old(ctx),
                old(output).outcome@,
            ),
    {
        self.text_box.event(ctx, output);
    }

    /// Places the text box.
    pub fn set_pos(&mut self, top_left: ScreenPt)
        ensures
            final(self)@ == (WidgetView {
                text_box: TextBoxView { top_left, ..old(self)@.text_box },
                ..old(self)@
            }),
    {
        self.text_box.set_pos(top_left);
    }
}

impl MultilineTextBox {
    /// A new text box under the name `label`.
    pub fn widget(
        ctx: &EventCtx,
        label: String,
        prefilled: String,
        dims: ScreenDims,
        autofocus: bool,
    ) -> (widget: Widget)
        ensures
            widget@.name == label@,
            widget@.text_box == TextBoxView::fresh(label@, prefilled@, dims, autofocus),
    {
        let name = label.clone();
        Widget { name, text_box: MultilineTextBox::new(ctx, label, prefilled, dims, autofocus) }
    }

    /// The content.
    pub fn get_text(&self) -> (text: String)
        ensures
            text@ == self@.edit.content,
    {
        self.buffer.text()
    }

    /// A new text box: it holds `prefilled` with the cursor after it, has
    /// not been placed yet and has no focus of its own.
    pub fn new(
        ctx: &EventCtx,
        label: String,
        prefilled: String,
        dims: ScreenDims,
        autofocus: bool,
    ) -> (text_box: MultilineTextBox)
        ensures
            text_box@ == TextBoxView::fresh(label@, prefilled@, dims, autofocus),
    {
        let padding = EdgeInsets {
            top: PADDING_TOP,
            left: PADDING_LEFT,
            bottom: PADDING_BOTTOM,
            right: PADDING_RIGHT,
        };
        MultilineTextBox {
            label,
            buffer: TextEditBuffer::new(prefilled.as_str()),
            has_focus: false,
            autofocus,
            padding,
            top_left: ScreenPt::new(0, 0),
            dims,
        }
    }

    /// The cursor always lies within the content or just after it.
    pub proof fn lemma_cursor_in_bounds(&self)
        ensures
            self@.edit.wf(),
    {
        self.buffer.lemma_wf();
    }

    /// The cursor: how many characters of the content stand before it.
    pub fn cursor(&self) -> (cursor: usize)
        ensures
            cursor == self@.edit.cursor,
            self@.edit.wf(),
    {
        self.buffer.cursor()
    }

    /// Whether the text box takes keys.
    pub fn is_focused(&self) -> (focused: bool)
        ensures
            focused == self@.focused(),
    {
        self.autofocus || self.has_focus
    }

    /// The lines to show: the content with the cursor glyph put in where the
    /// cursor is, cut at its line breaks.
    pub fn calculate_text(&self) -> (text: Text)
        ensures
            self@.shown_as(text),
    {
        let mut display = self.buffer.chars();
        let cursor = self.buffer.cursor();
        display.insert(cursor, CURSOR_GLYPH);
        let lines = split_on(&display, '\n');
        let inner: u32 = if self.dims.width > self.padding.left.saturating_add(
            self.padding.right,
        ) {
            self.dims.width - self.padding.left.saturating_add(self.padding.right)
        } else {
            1
        };
        Text { lines, wrap_to_pixels: inner }
    }

    /// The size of the widget, fixed when it was made.
    pub fn get_dims(&self) -> (dims: ScreenDims)
        ensures
            dims == self@.dims,
    {
        self.dims
    }

    /// Places the widget.
    pub fn set_pos(&mut self, top_left: ScreenPt)
        ensures
            final(self)@ == (TextBoxView { top_left, ..old(self)@ }),
    {
        self.top_left = top_left;
    }

    /// Takes one frame of input: the hover pass first, then the key, if the
    /// text box is focused. A key that the text box takes leaves `ctx`; a
    /// change of content is written to `output`.
    pub fn event(&mut self, ctx: &mut EventCtx, output: &mut WidgetOutput)
        ensures
            final(self)@ == old(self)@.after_event(*old(ctx)),
            *final(ctx) == old(self)@.ctx_after_event(*old(ctx)),
            final(output).outcome@ == old(self)@.outcome_after_event(
                *old(ctx),
                old(output).outcome@,
            ),
    {
        if !self.autofocus && ctx.redo_mouseover {
            self.has_focus = match ctx.cursor {
                Some(pt) => ScreenRectangle::top_left(self.top_left, self.dims).contains(pt),
                None => false,
            };
        }
        if !self.autofocus && !self.has_focus {
            return ;
        }
        if let Some(key) = ctx.pressed {
            if let Some(op) = key.edit_op(ctx.left_shift_down) {
                ctx.pressed = None;
                if self.buffer.apply(op) {
                    output.outcome = Outcome::Changed(self.label.clone());
                }
            }
        }
    }

    /// What the host is to draw.
    pub fn draw(&self) -> (drawing: TextBoxDrawing)
        ensures
            self@.drawn_as(drawing),
    {
        TextBoxDrawing {
            top_left: self.top_left,
            dims: self.dims,
            dimmed: !(self.autofocus || self.has_focus),
            corner_radius: CORNER_RADIUS,
            text: self.calculate_text(),
            text_left: self.padding.left,
            text_top: self.padding.top,
        }
    }
}

} // verus!
