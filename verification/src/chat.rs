//! The chat session: the transcript, the request in flight, the command
//! read from the latest reply, and the panel that shows it all.
//!
//! The session never waits. `submit` hands out a job for a worker to do
//! elsewhere; the worker sends its one result through the job's channel, and
//! the session looks for it once per frame.

use crate::chars::{chars_of, lowercase_of, string_of, trim, trimmed};
use crate::command::{directive, parse_command, ChatCommand};
use crate::history::{ChatHistory, Message, MessageView, Role};
use crate::input::{Button, EventCtx, Outcome, OutcomeView};
use crate::multiline_text_box::{TextBoxView, WidgetView};
use crate::panel::{Panel, PanelDrawing, PanelSize, PanelSizeView, PanelView, Resize, INITIAL_PCT};
use crate::request::{FetchError, FetchErrorView};
use crate::screen::{ScreenDims, ScreenPt};
use std::sync::mpsc::{Receiver, Sender};
use vstd::prelude::*;
use vstd::string::StringExecFns;

verus! {

/// The first line of every transcript.
pub const GREETING: &'static str = "Chatbox ready.";

/// What the text input of a new session holds.
pub const EXAMPLE_PROMPT: &'static str =
    "I want to evaluate how different ride-hailing vehicle quotas (from 1,000 to 10,000) affect road traffic congestion in Hong Kong.";

/// What the transcript writes before the description of a failure.
pub const FAILURE_PREFIX: &'static str = "LLM error: ";

/// `std::sync::mpsc::Receiver`, the receiving end of a channel. The session
/// holds one while a request is in flight and sees nothing inside it.
#[verifier::external_type_specification]
#[verifier::external_body]
#[verifier::reject_recursive_types(T)]
pub struct ExReceiver<T>(Receiver<T>);

/// `std::sync::mpsc::Sender`, the sending end of a channel. A job carries
/// one to the worker; the session never sends.
#[verifier::external_type_specification]
#[verifier::external_body]
#[verifier::reject_recursive_types(T)]
pub struct ExSender<T>(Sender<T>);

/// What a worker sends back: the reply, or why there is none.
pub type Completion = Result<String, FetchError>;

/// Calls `std::sync::mpsc::channel`, which makes a new channel and returns
/// its sending and its receiving end.
#[verifier::external_body]
fn open_channel() -> (ends: (Sender<Completion>, Receiver<Completion>)) {
    std::sync::mpsc::channel()
}

/// Calls `Receiver::try_recv`, which never waits: it returns a value that
/// was sent and not received yet, if there is one. Whether one has come
/// depends on the sender, so nothing is claimed of the result. That the
/// channel is empty and that the sender is gone both give `None`.
#[verifier::external_body]
fn try_receive(rx: &Receiver<Completion>) -> (arrived: Option<Completion>) {
    rx.try_recv().ok()
}

/// What a worker is to do: ask the service for a reply to `user_msg`, with
/// `history` as context, and send the outcome through `reply_to`.
pub struct FetchJob {
    /// The transcript as it was before the user's new message.
    pub history: ChatHistory,
    /// The user's new message.
    pub user_msg: String,
    /// Where the one result goes.
    pub reply_to: Sender<Completion>,
}

/// What a job asks for.
pub struct JobView {
    pub history: Seq<MessageView>,
    pub user_msg: Seq<char>,
}

impl View for FetchJob {
    type V = JobView;

    open spec fn view(&self) -> JobView {
        JobView { history: self.history@, user_msg: self.user_msg@ }
    }
}

/// What the job asks for, if there is one.
pub open spec fn job_view(job: Option<FetchJob>) -> Option<JobView> {
    match job {
        Some(job) => Some(job@),
        None => None,
    }
}

/// What a worker's result is, with its texts as characters.
pub open spec fn completion_view(result: Completion) -> Result<Seq<char>, FetchErrorView> {
    match result {
        Ok(reply) => Ok(reply@),
        Err(error) => Err(error@),
    }
}

/// The line that the transcript gets for a failure.
pub open spec fn failure_line(error: FetchErrorView) -> Seq<char> {
    FAILURE_PREFIX@ + error.description()
}

/// What a session is.
pub struct ChatboxView {
    pub panel: PanelView,
    pub history: Seq<MessageView>,
    /// What the text input is to hold when the panel is next made anew.
    pub input_prefill: Seq<char>,
    /// Whether a request is in flight.
    pub awaiting: bool,
    /// The command read from the latest reply, until it is taken.
    pub mailbox: Option<ChatCommand>,
    pub size: PanelSizeView,
}

impl ChatboxView {
    /// A new session in a window of size `window`: idle, with the greeting
    /// in its transcript and the example prompt in its text input.
    pub open spec fn created(window: ScreenDims) -> ChatboxView {
        let history = seq![MessageView { role: Role::System, content: GREETING@ }];
        let size = PanelSizeView { width_pct: INITIAL_PCT as int, height_pct: INITIAL_PCT as int };
        ChatboxView {
            panel: PanelView::built(history, EXAMPLE_PROMPT@, false, size, window),
            history,
            input_prefill: EXAMPLE_PROMPT@,
            awaiting: false,
            mailbox: None,
            size,
        }
    }

    /// The session with its panel made anew.
    pub open spec fn rebuilt(self, window: ScreenDims) -> ChatboxView {
        ChatboxView {
            panel: PanelView::built(
                self.history,
                self.input_prefill,
                self.awaiting,
                self.size,
                window,
            ),
            ..self
        }
    }

    /// The session once it has noted what the text input holds.
    pub open spec fn synced(self) -> ChatboxView {
        ChatboxView { input_prefill: self.panel.input_text(), ..self }
    }

    /// The session with the text input placed at `top_left`.
    pub open spec fn laid_out(self, top_left: ScreenPt) -> ChatboxView {
        ChatboxView {
            panel: PanelView {
                input: WidgetView {
                    text_box: TextBoxView { top_left, ..self.panel.input.text_box },
                    ..self.panel.input
                },
                ..self.panel
            },
            ..self
        }
    }

    /// The session with its mailbox emptied.
    pub open spec fn took_command(self) -> ChatboxView {
        ChatboxView { mailbox: None, ..self }
    }

    /// Whether the session takes `text` as a new message: it is idle, and
    /// the text is more than whitespace.
    pub open spec fn accepts(self, text: Seq<char>) -> bool {
        !self.awaiting && trimmed(text).len() > 0
    }

    /// The session after `text` was submitted. Where it takes the text, the
    /// trimmed text joins the transcript as the user's message, the text
    /// input is emptied, the panel is made anew, and a request is in flight.
    /// Where it does not, nothing changes.
    pub open spec fn submitted(self, text: Seq<char>, window: ScreenDims) -> ChatboxView {
        if self.accepts(text) {
            ChatboxView {
                awaiting: true,
                ..ChatboxView {
                    history: self.history.push(
                        MessageView { role: Role::User, content: trimmed(text) },
                    ),
                    input_prefill: Seq::<char>::empty(),
                    ..self
                }.rebuilt(window)
            }
        } else {
            self
        }
    }

    /// The job that submitting `text` hands out: the transcript from before
    /// the new message, and the new message. There is none where the session
    /// does not take the text.
    pub open spec fn job_for(self, text: Seq<char>) -> Option<JobView> {
        if self.accepts(text) {
            Some(JobView { history: self.history, user_msg: trimmed(text) })
        } else {
            None
        }
    }

    /// The session after the worker's result has come. A reply joins the
    /// transcript as the assistant's message, and the mailbox holds what the
    /// reply asks for, or nothing. A failure joins the transcript as a
    /// system message, and the mailbox stays as it is. Either way the
    /// session is idle again and its panel made anew, with the text input
    /// holding what it held. A session that awaits nothing stays as it is.
    pub open spec fn completed(
        self,
        result: Result<Seq<char>, FetchErrorView>,
        window: ScreenDims,
    ) -> ChatboxView {
        if !self.awaiting {
            self
        } else {
            match result {
                Ok(reply) => ChatboxView {
                    history: self.history.push(
                        MessageView { role: Role::Assistant, content: reply },
                    ),
                    mailbox: directive(lowercase_of(reply)),
                    awaiting: false,
                    ..self.synced()
                }.rebuilt(window),
                Err(error) => ChatboxView {
                    history: self.history.push(
                        MessageView { role: Role::System, content: failure_line(error) },
                    ),
                    awaiting: false,
                    ..self.synced()
                }.rebuilt(window),
            }
        }
    }

    /// Whether a look for the worker's result can take the session to
    /// `next`: either nothing has come and nothing changes, or a request is
    /// in flight and its result has come.
    pub open spec fn polls_to(self, next: ChatboxView, window: ScreenDims) -> bool {
        next == self || (self.awaiting && exists|result: Result<Seq<char>, FetchErrorView>|
            next == #[trigger] self.completed(result, window))
    }

    /// The session with its panel one step smaller or larger and made anew,
    /// the text input holding what it held.
    pub open spec fn resized(self, direction: Resize, window: ScreenDims) -> ChatboxView {
        ChatboxView { size: self.size.resized(direction), ..self.synced() }.rebuilt(window)
    }

    /// The session once the panel has seen the frame, before it acts on
    /// what came of it.
    pub open spec fn heard(self, ctx: EventCtx) -> ChatboxView {
        ChatboxView { panel: self.panel.after_event(ctx), ..self.synced() }
    }

    /// The session after a frame of input. A click on the send button
    /// submits what the text input holds; a click on one of the other two
    /// resizes the panel.
    pub open spec fn after_input(self, ctx: EventCtx) -> ChatboxView {
        let heard = self.heard(ctx);
        match self.panel.outcome_of_event(ctx) {
            OutcomeView::Clicked(Button::Send) => heard.submitted(
                heard.panel.input_text(),
                ctx.window,
            ),
            OutcomeView::Clicked(Button::Smaller) => heard.resized(Resize::Shrink, ctx.window),
            OutcomeView::Clicked(Button::Larger) => heard.resized(Resize::Grow, ctx.window),
            _ => heard,
        }
    }

    /// The job that a frame of input hands out: that of the submission, if
    /// the frame makes one.
    pub open spec fn job_of_input(self, ctx: EventCtx) -> Option<JobView> {
        let heard = self.heard(ctx);
        match self.panel.outcome_of_event(ctx) {
            OutcomeView::Clicked(Button::Send) => heard.job_for(heard.panel.input_text()),
            _ => None,
        }
    }
}

/// While a request is in flight a submission changes nothing and hands out
/// no job: there is never more than one request in flight.
pub proof fn lemma_submit_while_awaiting(state: ChatboxView, text: Seq<char>, window: ScreenDims)
    requires
        state.awaiting,
    ensures
        state.submitted(text, window) == state,
        state.job_for(text) is None,
{
}

/// While a request is in flight no frame of input hands out a job, adds to
/// the transcript, touches the mailbox or ends the wait.
pub proof fn lemma_input_while_awaiting(state: ChatboxView, ctx: EventCtx)
    requires
        state.awaiting,
    ensures
        state.job_of_input(ctx) is None,
        state.after_input(ctx).history == state.history,
        state.after_input(ctx).mailbox == state.mailbox,
        state.after_input(ctx).awaiting,
{
}

/// A submission hands out a job exactly when it is taken, and then a
/// request is in flight.
pub proof fn lemma_submit_opens_request(state: ChatboxView, text: Seq<char>, window: ScreenDims)
    ensures
        state.job_for(text) is Some <==> state.accepts(text),
        state.accepts(text) ==> state.submitted(text, window).awaiting,
{
}

/// The worker's result ends the wait, whatever it is.
pub proof fn lemma_completion_returns_to_idle(
    state: ChatboxView,
    result: Result<Seq<char>, FetchErrorView>,
    window: ScreenDims,
)
    ensures
        !state.completed(result, window).awaiting,
        result is Err ==> state.completed(result, window).mailbox == state.mailbox,
{
}

/// A command is delivered once: after the mailbox was emptied it holds
/// nothing, and emptying it again changes nothing.
pub proof fn lemma_take_command_drains(state: ChatboxView)
    ensures
        state.took_command().mailbox is None,
        state.took_command().took_command() == state.took_command(),
{
}

/// Whether `later` begins with all of `earlier`.
pub open spec fn begins_with<A>(later: Seq<A>, earlier: Seq<A>) -> bool {
    earlier.len() <= later.len() && later.subrange(0, earlier.len() as int) == earlier
}

/// The transcript only grows, and only at its end: whatever the session
/// does, the transcript afterwards begins with the transcript from before.
pub proof fn lemma_transcript_only_grows(
    state: ChatboxView,
    text: Seq<char>,
    result: Result<Seq<char>, FetchErrorView>,
    direction: Resize,
    ctx: EventCtx,
    window: ScreenDims,
)
    ensures
        begins_with(state.submitted(text, window).history, state.history),
        begins_with(state.completed(result, window).history, state.history),
        begins_with(state.resized(direction, window).history, state.history),
        begins_with(state.rebuilt(window).history, state.history),
        begins_with(state.took_command().history, state.history),
        begins_with(state.after_input(ctx).history, state.history),
{
    let before = state.history;
    assert(before.subrange(0, before.len() as int) =~= before);
    assert forall|entry: MessageView| #[trigger]
        before.push(entry).subrange(0, before.len() as int) == before by {
        assert(before.push(entry).subrange(0, before.len() as int) =~= before);
    }
}

/// The chat session.
pub struct Chatbox {
    panel: Panel,
    messages: ChatHistory,
    input_prefill: String,
    pending_rx: Option<Receiver<Completion>>,
    pending_command: Option<ChatCommand>,
    size: PanelSize,
}

impl View for Chatbox {
    type V = ChatboxView;

    closed spec fn view(&self) -> ChatboxView {
        ChatboxView {
            panel: self.panel@,
            history: self.messages@,
            input_prefill: self.input_prefill@,
            awaiting: self.pending_rx is Some,
            mailbox: self.pending_command,
            size: self.size@,
        }
    }
}

impl Chatbox {
    /// A new session: idle, with the greeting in its transcript and the
    /// example prompt in its text input.
    pub fn new(ctx: &EventCtx) -> (chatbox: Chatbox)
        ensures
            chatbox@ == ChatboxView::created(ctx.window),
    {
        let mut messages = ChatHistory::new();
        messages.append(Message::new(Role::System, GREETING.to_owned()));
        assert(messages@ =~= seq![MessageView { role: Role::System, content: GREETING@ }]);
        let size = PanelSize::new();
        let panel = Panel::build(ctx, &messages, EXAMPLE_PROMPT, false, size);
        Chatbox {
            panel,
            messages,
            input_prefill: EXAMPLE_PROMPT.to_owned(),
            pending_rx: None,
            pending_command: None,
            size,
        }
    }

    /// One frame: looks for the result of the request in flight, then takes
    /// the frame's input. Hands out a job if the input made a submission
    /// that the session took.
    pub fn event(&mut self, ctx: &mut EventCtx) -> (job: Option<FetchJob>)
        ensures
            exists|polled: ChatboxView|
                {
                    &&& #[trigger] old(self)@.polls_to(polled, old(ctx).window)
                    &&& final(self)@ == polled.after_input(*old(ctx))
                    &&& job_view(job) == polled.job_of_input(*old(ctx))
                    &&& *final(ctx) == polled.panel.ctx_after_event(*old(ctx))
                },
    {
        self.poll_completion(ctx);
        let ghost polled = self@;
        let job = self.handle_input(ctx);
        assert(old(self)@.polls_to(polled, old(ctx).window));
        job
    }

    /// What the host is to draw.
    pub fn draw(&self) -> (drawing: PanelDrawing)
        ensures
            self@.panel.drawn_as(drawing),
    {
        self.panel.draw()
    }

    /// Makes the panel anew, for a window that has changed.
    pub fn recreate_panel(&mut self, ctx: &EventCtx)
        ensures
            final(self)@ == old(self)@.rebuilt(ctx.window),
    {
        self.rebuild_panel(ctx);
    }

    /// Empties the mailbox and returns what it held.
    pub fn take_command(&mut self) -> (command: Option<ChatCommand>)
        ensures
            command == old(self)@.mailbox,
            final(self)@ == old(self)@.took_command(),
    {
        self.pending_command.take()
    }

    /// Submits `text` as the user's new message. Returns the job for the
    /// worker if the session took the text.
    pub fn submit(&mut self, text: &str, ctx: &EventCtx) -> (job: Option<FetchJob>)
        ensures
            final(self)@ == old(self)@.submitted(text@, ctx.window),
            job_view(job) == old(self)@.job_for(text@),
    {
        let typed = chars_of(text);
        let core = trim(&typed);
        if core.len() == 0 || self.pending_rx.is_some() {
            return None;
        }
        let user_msg = string_of(&core);
        let snapshot = self.messages.clone();
        self.messages.append(Message::new(Role::User, user_msg.clone()));
        self.input_prefill = String::new();
        self.rebuild_panel(ctx);
        Some(self.start_request(snapshot, user_msg))
    }

    /// Looks for the result of the request in flight, without waiting, and
    /// takes it in if it has come.
    pub fn poll_completion(&mut self, ctx: &EventCtx)
        ensures
            old(self)@.polls_to(final(self)@, ctx.window),
    {
        let arrived = match &self.pending_rx {
            Some(rx) => try_receive(rx),
            None => None,
        };
        if let Some(result) = arrived {
            self.complete(result, ctx);
        }
    }

    /// Takes in the worker's result. A session that awaits none leaves it
    /// aside.
    pub fn complete(&mut self, result: Completion, ctx: &EventCtx)
        ensures
            final(self)@ == old(self)@.completed(completion_view(result), ctx.window),
    {
        if self.pending_rx.is_none() {
            return ;
        }
        self.pending_rx = None;
        self.input_prefill = self.panel.input_text();
        match result {
            Ok(content) => {
                self.pending_command = parse_command(content.as_str());
                self.messages.append(Message::new(Role::Assistant, content));
            },
            Err(error) => {
                let mut line = FAILURE_PREFIX.to_owned();
                line.append(error.description().as_str());
                self.messages.append(Message::new(Role::System, line));
            },
        }
        self.rebuild_panel(ctx);
    }

    /// Makes the panel one step smaller or larger.
    pub fn resize(&mut self, direction: Resize, ctx: &EventCtx)
        ensures
            final(self)@ == old(self)@.resized(direction, ctx.window),
            final(self)@.size.wf(),
    {
        self.input_prefill = self.panel.input_text();
        self.size.resize(direction);
        self.rebuild_panel(ctx);
    }

    /// Takes the frame's input: hands it to the panel and acts on a click.
    pub fn handle_input(&mut self, ctx: &mut EventCtx) -> (job: Option<FetchJob>)
        ensures
            final(self)@ == old(self)@.after_input(*old(ctx)),
            job_view(job) == old(self)@.job_of_input(*old(ctx)),
            *final(ctx) == old(self)@.panel.ctx_after_event(*old(ctx)),
    {
        self.input_prefill = self.panel.input_text();
        match self.panel.event(ctx) {
            Outcome::Clicked(Button::Send) => {
                let input = self.panel.input_text();
                self.submit(input.as_str(), ctx)
            },
            Outcome::Clicked(Button::Smaller) => {
                self.resize(Resize::Shrink, ctx);
                None
            },
            Outcome::Clicked(Button::Larger) => {
                self.resize(Resize::Grow, ctx);
                None
            },
            _ => None,
        }
    }

    /// Places the text input, once the host has laid the panel out.
    pub fn layout(&mut self, input_top_left: ScreenPt)
        ensures
            final(self)@ == old(self)@.laid_out(input_top_left),
    {
        self.panel.set_input_pos(input_top_left);
    }

    /// The transcript.
    pub fn history(&self) -> (history: &ChatHistory)
        ensures
            history@ == self@.history,
    {
        &self.messages
    }

    /// The panel.
    pub fn panel(&self) -> (panel: &Panel)
        ensures
            panel@ == self@.panel,
    {
        &self.panel
    }

    /// Whether a request is in flight.
    pub fn is_awaiting(&self) -> (awaiting: bool)
        ensures
            awaiting == self@.awaiting,
    {
        self.pending_rx.is_some()
    }

    /// The size of the panel.
    pub fn size(&self) -> (size: PanelSize)
        ensures
            size@ == self@.size,
    {
        self.size
    }

    fn rebuild_panel(&mut self, ctx: &EventCtx)
        ensures
            final(self)@ == old(self)@.rebuilt(ctx.window),
    {
        self.panel = Panel::build(
            ctx,
            &self.messages,
            self.input_prefill.as_str(),
            self.pending_rx.is_some(),
            self.size,
        );
    }

    /// Opens the channel for a new request and keeps its receiving end.
    fn start_request(&mut self, history: ChatHistory, user_msg: String) -> (job: FetchJob)
        ensures
            final(self)@ == (ChatboxView { awaiting: true, ..old(self)@ }),
            job@ == (JobView { history: history@, user_msg: user_msg@ }),
    {
        let (tx, rx) = open_channel();
        self.pending_rx = Some(rx);
        FetchJob { history, user_msg, reply_to: tx }
    }
}

} // verus!
