//! The chat panel: the latest lines of the transcript, the text input, and
//! the buttons, sized as a share of the window.

use crate::chars::texts;
use crate::history::{trailing, views, ChatHistory, MessageView};
use crate::input::{EventCtx, Outcome, OutcomeView, WidgetOutput};
use crate::multiline_text_box::{MultilineTextBox, TextBoxDrawing, TextBoxView, Widget, WidgetView};
use crate::screen::{ScreenDims, ScreenPt};
use vstd::prelude::*;
use vstd::string::StringExecFns;

verus! {

/// How many of the latest messages the panel shows.
pub const DISPLAY_WINDOW: usize = 6;

/// The name of the text input in the panel.
pub const INPUT_NAME: &'static str = "chat_input";

/// By how many points of a percentage one step resizes the panel.
pub const RESIZE_STEP: usize = 5;

/// The least width of the panel, in percent of the window.
pub const MIN_WIDTH_PCT: usize = 15;

/// The greatest width of the panel, in percent of the window.
pub const MAX_WIDTH_PCT: usize = 50;

/// The least height of the panel, in percent of the window.
pub const MIN_HEIGHT_PCT: usize = 15;

/// The greatest height of the panel, in percent of the window.
pub const MAX_HEIGHT_PCT: usize = 60;

/// The width and the height that a new panel has, in percent of the window.
pub const INITIAL_PCT: usize = 35;

/// The least width of the text input, in pixels.
pub const MIN_INPUT_WIDTH: u32 = 220;

/// The least height of the text input, in pixels.
pub const MIN_INPUT_HEIGHT: u32 = 90;

/// Which way to resize the panel.
#[derive(Clone, Copy, Debug, PartialEq, Eq, Structural)]
pub enum Resize {
    Shrink,
    Grow,
}

/// What a `PanelSize` is: the width and the height of the panel in percent
/// of the window.
pub struct PanelSizeView {
    pub width_pct: int,
    pub height_pct: int,
}

impl PanelSizeView {
    /// Both percentages lie in their ranges.
    pub open spec fn wf(self) -> bool {
        &&& MIN_WIDTH_PCT <= self.width_pct <= MAX_WIDTH_PCT
        &&& MIN_HEIGHT_PCT <= self.height_pct <= MAX_HEIGHT_PCT
    }

    /// The size one step smaller or larger. Each percentage moves by the
    /// step on its own and stops at the end of its range.
    pub open spec fn resized(self, direction: Resize) -> PanelSizeView {
        match direction {
            Resize::Shrink => PanelSizeView {
                width_pct: if self.width_pct - RESIZE_STEP >= MIN_WIDTH_PCT {
                    self.width_pct - RESIZE_STEP
                } else {
                    MIN_WIDTH_PCT as int
                },
                height_pct: if self.height_pct - RESIZE_STEP >= MIN_HEIGHT_PCT {
                    self.height_pct - RESIZE_STEP
                } else {
                    MIN_HEIGHT_PCT as int
                },
            },
            Resize::Grow => PanelSizeView {
                width_pct: if self.width_pct + RESIZE_STEP <= MAX_WIDTH_PCT {
                    self.width_pct + RESIZE_STEP
                } else {
                    MAX_WIDTH_PCT as int
                },
                height_pct: if self.height_pct + RESIZE_STEP <= MAX_HEIGHT_PCT {
                    self.height_pct + RESIZE_STEP
                } else {
                    MAX_HEIGHT_PCT as int
                },
            },
        }
    }

    /// The size after each of `steps` in turn.
    pub open spec fn resized_all(self, steps: Seq<Resize>) -> PanelSizeView
        decreases steps.len(),
    {
        if steps.len() == 0 {
            self
        } else {
            self.resized_all(steps.drop_last()).resized(steps.last())
        }
    }

    /// The width to which the lines of the transcript are wrapped, in
    /// percent of the window: nine tenths of the panel's width, rounded.
    pub open spec fn wrap_pct(self) -> int {
        (self.width_pct * 9 + 5) / 10
    }

    /// The size of the text input in a window of size `window`: 65 percent
    /// of the panel's width and 30 percent of its height, in whole pixels,
    /// and no less than the least width and height.
    pub open spec fn input_dims(self, window: ScreenDims) -> ScreenDims {
        let width = window.width * (self.width_pct * 65) / 10000;
        let height = window.height * (self.height_pct * 30) / 10000;
        ScreenDims {
            width: if width >= MIN_INPUT_WIDTH {
                width as u32
            } else {
                MIN_INPUT_WIDTH
            },
            height: if height >= MIN_INPUT_HEIGHT {
                height as u32
            } else {
                MIN_INPUT_HEIGHT
            },
        }
    }
}

/// Resizing never takes a percentage out of its range.
pub proof fn lemma_resize_stays_in_range(size: PanelSizeView, steps: Seq<Resize>)
    requires
        size.wf(),
    ensures
        size.resized_all(steps).wf(),
    decreases steps.len(),
{
    if steps.len() > 0 {
        lemma_resize_stays_in_range(size, steps.drop_last());
    }
}

/// The width and the height of the panel, in percent of the window. The
/// width stays between 15 and 50, the height between 15 and 60.
#[derive(Clone, Copy, Debug)]
pub struct PanelSize {
    width_pct: usize,
    height_pct: usize,
}

impl View for PanelSize {
    type V = PanelSizeView;

    closed spec fn view(&self) -> PanelSizeView {
        PanelSizeView { width_pct: self.width_pct as int, height_pct: self.height_pct as int }
    }
}

impl PanelSize {
    #[verifier::type_invariant]
    spec fn in_range(self) -> bool {
        &&& MIN_WIDTH_PCT <= self.width_pct <= MAX_WIDTH_PCT
        &&& MIN_HEIGHT_PCT <= self.height_pct <= MAX_HEIGHT_PCT
    }

    /// The size of a new panel.
    pub fn new() -> (size: PanelSize)
        ensures
            size@ == (PanelSizeView {
                width_pct: INITIAL_PCT as int,
                height_pct: INITIAL_PCT as int,
            }),
            size@.wf(),
    {
        PanelSize { width_pct: INITIAL_PCT, height_pct: INITIAL_PCT }
    }

    pub fn width_pct(&self) -> (pct: usize)
        ensures
            pct == self@.width_pct,
            self@.wf(),
    {
        proof {
            use_type_invariant(self);
        }
        self.width_pct
    }

    pub fn height_pct(&self) -> (pct: usize)
        ensures
            pct == self@.height_pct,
            self@.wf(),
    {
        proof {
            use_type_invariant(self);
        }
        self.height_pct
    }

    /// Makes the panel one step smaller or larger.
    pub fn resize(&mut self, direction: Resize)
        ensures
            final(self)@ == old(self)@.resized(direction),
            final(self)@.wf(),
    {
        proof {
            use_type_invariant(&*self);
        }
        match direction {
            Resize::Shrink => {
                self.width_pct = if self.width_pct - RESIZE_STEP >= MIN_WIDTH_PCT {
                    self.width_pct - RESIZE_STEP
                } else {
                    MIN_WIDTH_PCT
                };
                self.height_pct = if self.height_pct - RESIZE_STEP >= MIN_HEIGHT_PCT {
                    self.height_pct - RESIZE_STEP
                } else {
                    MIN_HEIGHT_PCT
                };
            },
            Resize::Grow => {
                self.width_pct = if self.width_pct + RESIZE_STEP <= MAX_WIDTH_PCT {
                    self.width_pct + RESIZE_STEP
                } else {
                    MAX_WIDTH_PCT
                };
                self.height_pct = if self.height_pct + RESIZE_STEP <= MAX_HEIGHT_PCT {
                    self.height_pct + RESIZE_STEP
                } else {
                    MAX_HEIGHT_PCT
                };
            },
        }
    }

    /// The width to which the lines of the transcript are wrapped, in
    /// percent of the window.
    pub fn wrap_pct(&self) -> (pct: usize)
        ensures
            pct == self@.wrap_pct(),
    {
        (self.width_pct() * 9 + 5) / 10
    }

    /// The size of the text input in a window of size `window`.
    pub fn input_dims(&self, window: ScreenDims) -> (dims: ScreenDims)
        ensures
            dims == self@.input_dims(window),
    {
        let width_share: u64 = self.width_pct() as u64 * 65;
        let height_share: u64 = self.height_pct() as u64 * 30;
        assert(window.width * width_share <= 0xffff_ffff * 3250) by (nonlinear_arith)
            requires
                window.width <= 0xffff_ffff,
                width_share <= 3250,
        ;
        assert(window.height * height_share <= 0xffff_ffff * 1800) by (nonlinear_arith)
            requires
                window.height <= 0xffff_ffff,
                height_share <= 1800,
        ;
        let width: u64 = window.width as u64 * width_share / 10000;
        let height: u64 = window.height as u64 * height_share / 10000;
        ScreenDims {
            width: if width >= MIN_INPUT_WIDTH as u64 {
                width as u32
            } else {
                MIN_INPUT_WIDTH
            },
            height: if height >= MIN_INPUT_HEIGHT as u64 {
                height as u32
            } else {
                MIN_INPUT_HEIGHT
            },
        }
    }
}

/// The line that the transcript shows for a message: the message after what
/// marks its role.
pub open spec fn display_line(message: MessageView) -> Seq<char> {
    message.role.spec_prefix() + message.content
}

/// The lines that the panel shows of a transcript: one for each of its last
/// six messages, oldest first.
pub open spec fn transcript_lines(history: Seq<MessageView>) -> Seq<Seq<char>> {
    let recent = trailing(history, DISPLAY_WINDOW as nat);
    Seq::new(recent.len(), |i: int| display_line(recent[i]))
}

/// What the send button reads.
pub open spec fn spec_send_label(awaiting: bool) -> Seq<char> {
    if awaiting {
        "..."@
    } else {
        "Send"@
    }
}

/// What a panel is.
pub struct PanelView {
    pub transcript: Seq<Seq<char>>,
    pub input: WidgetView,
    pub send_label: Seq<char>,
    pub size: PanelSizeView,
}

impl PanelView {
    /// The panel made anew: it shows the end of `history`, and its text
    /// input is a new one that holds `prefill`.
    pub open spec fn built(
        history: Seq<MessageView>,
        prefill: Seq<char>,
        awaiting: bool,
        size: PanelSizeView,
        window: ScreenDims,
    ) -> PanelView {
        PanelView {
            transcript: transcript_lines(history),
            input: WidgetView {
                name: INPUT_NAME@,
                text_box: TextBoxView::fresh(INPUT_NAME@, prefill, size.input_dims(window), false),
            },
            send_label: spec_send_label(awaiting),
            size,
        }
    }

    /// The text in the input.
    pub open spec fn input_text(self) -> Seq<char> {
        self.input.text_box.edit.content
    }

    /// The panel after the frame: the frame went to the text input.
    pub open spec fn after_event(self, ctx: EventCtx) -> PanelView {
        PanelView {
            input: WidgetView { text_box: self.input.text_box.after_event(ctx), ..self.input },
            ..self
        }
    }

    /// What comes of the frame: the click on a button, if there was one,
    /// and else the change of the text, if there was one.
    pub open spec fn outcome_of_event(self, ctx: EventCtx) -> OutcomeView {
        match ctx.clicked {
            Some(button) => OutcomeView::Clicked(button),
            None => self.input.text_box.outcome_after_event(ctx, OutcomeView::Nothing),
        }
    }

    /// The frame as the panel leaves it: without the click, and without the
    /// key if the text input took it.
    pub open spec fn ctx_after_event(self, ctx: EventCtx) -> EventCtx {
        EventCtx { clicked: None, ..self.input.text_box.ctx_after_event(ctx) }
    }

    /// Whether `drawing` is the picture of this panel.
    pub open spec fn drawn_as(self, drawing: PanelDrawing) -> bool {
        &&& texts(drawing.transcript@) == self.transcript
        &&& drawing.wrap_pct == self.size.wrap_pct()
        &&& self.input.text_box.drawn_as(drawing.input)
        &&& drawing.send_label@ == self.send_label
        &&& drawing.width_pct == self.size.width_pct
        &&& drawing.height_pct == self.size.height_pct
    }
}

/// What the host is to draw for the panel.
#[derive(Debug)]
pub struct PanelDrawing {
    /// The lines of the transcript, from top to bottom.
    pub transcript: Vec<String>,
    /// The width to which the host wraps those lines, in percent of the
    /// window.
    pub wrap_pct: usize,
    pub input: TextBoxDrawing,
    pub send_label: String,
    pub width_pct: usize,
    pub height_pct: usize,
}

/// The chat panel.
#[derive(Debug)]
pub struct Panel {
    transcript: Vec<String>,
    input: Widget,
    send_label: String,
    size: PanelSize,
}

impl View for Panel {
    type V = PanelView;

    closed spec fn view(&self) -> PanelView {
        PanelView {
            transcript: texts(self.transcript@),
            input: self.input@,
            send_label: self.send_label@,
            size: self.size@,
        }
    }
}

/// A copy of each string of `strings`, in order.
fn copy_strings(strings: &Vec<String>) -> (copies: Vec<String>)
    ensures
        texts(copies@) == texts(strings@),
{
    let mut copies: Vec<String> = Vec::new();
    let mut i: usize = 0;
    while i < strings.len()
        invariant
            i <= strings.len(),
            texts(copies@) == texts(strings@).take(i as int),
        decreases strings.len() - i,
    {
        let ghost before = texts(copies@);
        copies.push(strings[i].clone());
        assert(texts(copies@) =~= before.push(strings@[i as int]@));
        assert(before.push(strings@[i as int]@) =~= texts(strings@).take(i + 1));
        i += 1;
    }
    assert(texts(strings@).take(i as int) =~= texts(strings@));
    copies
}

impl Panel {
    /// Makes the panel anew: it shows the end of `history`, and its text
    /// input is a new one that holds `prefill`, sized for the window.
    pub fn build(
        ctx: &EventCtx,
        history: &ChatHistory,
        prefill: &str,
        awaiting: bool,
        size: PanelSize,
    ) -> (panel: Panel)
        ensures
            panel@ == PanelView::built(history@, prefill@, awaiting, size@, ctx.window),
    {
        let recent = history.recent(DISPLAY_WINDOW);
        let mut transcript: Vec<String> = Vec::new();
        let mut i: usize = 0;
        while i < recent.len()
            invariant
                i <= recent.len(),
                views(recent@) == trailing(history@, DISPLAY_WINDOW as nat),
                texts(transcript@) == transcript_lines(history@).take(i as int),
            decreases recent.len() - i,
        {
            let ghost before = texts(transcript@);
            let mut line = recent[i].role().prefix().to_owned();
            line.append(recent[i].content());
            assert(views(recent@)[i as int] == recent@[i as int]@);
            transcript.push(line);
            assert(texts(transcript@) =~= before.push(line@));
            assert(before.push(line@) =~= transcript_lines(history@).take(i + 1));
            i += 1;
        }
        assert(transcript_lines(history@).take(i as int) =~= transcript_lines(history@));
        let input = MultilineTextBox::widget(
            ctx,
            INPUT_NAME.to_owned(),
            prefill.to_owned(),
            size.input_dims(ctx.window),
            false,
        );
        let send_label = if awaiting {
            "...".to_owned()
        } else {
            "Send".to_owned()
        };
        Panel { transcript, input, send_label, size }
    }

    /// The text in the input.
    pub fn input_text(&self) -> (text: String)
        ensures
            text@ == self@.input_text(),
    {
        self.input.text_box().get_text()
    }

    /// The text input.
    pub fn input(&self) -> (input: &Widget)
        ensures
            input@ == self@.input,
    {
        &self.input
    }

    /// Places the text input.
    pub fn set_input_pos(&mut self, top_left: ScreenPt)
        ensures
            final(self)@ == (PanelView {
                input: WidgetView {
                    text_box: TextBoxView { top_left, ..old(self)@.input.text_box },
                    ..old(self)@.input
                },
                ..old(self)@
            }),
    {
        self.input.set_pos(top_left);
    }

    /// Takes one frame of input. The text input sees it first; a click on a
    /// button is what comes of the frame if there is one.
    pub fn event(&mut self, ctx: &mut EventCtx) -> (outcome: Outcome)
        ensures
            final(self)@ == old(self)@.after_event(*old(ctx)),
            *final(ctx) == old(self)@.ctx_after_event(*old(ctx)),
            outcome@ == old(self)@.outcome_of_event(*old(ctx)),
    {
        let mut output = WidgetOutput::new();
        self.input.event(ctx, &mut output);
        match ctx.clicked {
            Some(button) => {
                ctx.clicked = None;
                Outcome::Clicked(button)
            },
            None => output.outcome,
        }
    }

    /// What the host is to draw.
    pub fn draw(&self) -> (drawing: PanelDrawing)
        ensures
            self@.drawn_as(drawing),
    {
        PanelDrawing {
            transcript: copy_strings(&self.transcript),
            wrap_pct: self.size.wrap_pct(),
            input: self.input.text_box().draw(),
            send_label: self.send_label.clone(),
            width_pct: self.size.width_pct(),
            height_pct: self.size.height_pct(),
        }
    }
}

} // verus!
