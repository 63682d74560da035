//! The request to the completion service and what is read from its answer.
//!
//! The library shapes the request and reads the answer; sending it is the
//! caller's part.

use crate::chars::{
    append_chars, chars_of, string_of, strip_trailing, strip_trailing_char, texts,
};
use crate::history::{trailing, views, ChatHistory, Message, MessageView, Role};
use vstd::prelude::*;

verus! {

/// Where the service is reached when the caller names no other place.
pub const DEFAULT_BASE_URL: &'static str = "https://api.deepseek.com/v1";

/// The path of the completion endpoint under the base address.
pub const COMPLETIONS_PATH: &'static str = "/chat/completions";

/// The model that answers.
pub const MODEL: &'static str = "deepseek-chat";

/// The sampling temperature, in tenths.
pub const TEMPERATURE_TENTHS: u8 = 2;

/// How many of the latest messages of the transcript go with a request.
pub const CONTEXT_WINDOW: usize = 8;

/// What every request tells the model first.
pub const SYSTEM_INSTRUCTION: &'static str =
    "You are controlling a traffic simulation. You may include lines like ACTION: pause or ACTION: resume. Keep replies short.";

/// What is said of a request made without a credential.
pub const MISSING_CREDENTIAL: &'static str = "Missing DEEPSEEK_API_KEY env var";

/// What stands in for the reply when the service offers none.
pub const EMPTY_REPLY: &'static str = "(empty reply)";

/// Why a request brought no reply.
#[derive(Debug)]
pub enum FetchError {
    /// No credential was configured. Nothing was sent.
    Configuration,
    /// The request did not get through, or the service refused it.
    Transport(String),
    /// The answer did not have the expected shape.
    Protocol(String),
}

/// What a `FetchError` is, with its text as characters.
pub enum FetchErrorView {
    Configuration,
    Transport(Seq<char>),
    Protocol(Seq<char>),
}

impl FetchErrorView {
    /// The failure in words.
    pub open spec fn description(self) -> Seq<char> {
        match self {
            FetchErrorView::Configuration => MISSING_CREDENTIAL@,
            FetchErrorView::Transport(why) => why,
            FetchErrorView::Protocol(why) => why,
        }
    }
}

impl View for FetchError {
    type V = FetchErrorView;

    open spec fn view(&self) -> FetchErrorView {
        match *self {
            FetchError::Configuration => FetchErrorView::Configuration,
            FetchError::Transport(why) => FetchErrorView::Transport(why@),
            FetchError::Protocol(why) => FetchErrorView::Protocol(why@),
        }
    }
}

impl FetchError {
    /// The failure in words.
    pub fn description(&self) -> (text: String)
        ensures
            text@ == self@.description(),
    {
        match self {
            FetchError::Configuration => MISSING_CREDENTIAL.to_owned(),
            FetchError::Transport(why) => why.clone(),
            FetchError::Protocol(why) => why.clone(),
        }
    }
}

/// A request to the completion service.
#[derive(Debug)]
pub struct ChatRequest {
    /// The address to post to.
    pub url: String,
    /// The bearer credential.
    pub api_key: String,
    pub model: String,
    pub messages: Vec<Message>,
    pub temperature_tenths: u8,
}

/// What a `ChatRequest` is.
pub struct ChatRequestView {
    pub url: Seq<char>,
    pub api_key: Seq<char>,
    pub model: Seq<char>,
    pub messages: Seq<MessageView>,
    pub temperature_tenths: u8,
}

impl View for ChatRequest {
    type V = ChatRequestView;

    open spec fn view(&self) -> ChatRequestView {
        ChatRequestView {
            url: self.url@,
            api_key: self.api_key@,
            model: self.model@,
            messages: views(self.messages@),
            temperature_tenths: self.temperature_tenths,
        }
    }
}

/// The address of the completion endpoint: the base address, or the default
/// one where none is given, without slashes at its end, and then the path.
pub open spec fn spec_endpoint(base_url: Option<Seq<char>>) -> Seq<char> {
    let base = match base_url {
        Some(given) => given,
        None => DEFAULT_BASE_URL@,
    };
    strip_trailing(base, '/') + COMPLETIONS_PATH@
}

/// The messages of a request: the system instruction, then the last eight
/// messages of the transcript in their order, then the user's new message.
pub open spec fn spec_request_messages(
    history: Seq<MessageView>,
    user_msg: Seq<char>,
) -> Seq<MessageView> {
    seq![MessageView { role: Role::System, content: SYSTEM_INSTRUCTION@ }] + trailing(
        history,
        CONTEXT_WINDOW as nat,
    ) + seq![MessageView { role: Role::User, content: user_msg }]
}

/// The request for the user's new message, or that there is none to make
/// for want of a credential.
pub open spec fn spec_build_request(
    api_key: Option<Seq<char>>,
    base_url: Option<Seq<char>>,
    history: Seq<MessageView>,
    user_msg: Seq<char>,
) -> Result<ChatRequestView, FetchErrorView> {
    match api_key {
        None => Err(FetchErrorView::Configuration),
        Some(key) => Ok(
            ChatRequestView {
                url: spec_endpoint(base_url),
                api_key: key,
                model: MODEL@,
                messages: spec_request_messages(history, user_msg),
                temperature_tenths: TEMPERATURE_TENTHS,
            },
        ),
    }
}

/// The reply among the candidates that the service offers: the first one,
/// or a placeholder where there is none.
pub open spec fn spec_reply_from_choices(choices: Seq<Seq<char>>) -> Seq<char> {
    if choices.len() > 0 {
        choices[0]
    } else {
        EMPTY_REPLY@
    }
}

/// The characters of `s`, if there is one.
pub open spec fn option_chars(s: Option<String>) -> Option<Seq<char>> {
    match s {
        Some(s) => Some(s@),
        None => None,
    }
}

/// What a result of a request is, with its texts as characters.
pub open spec fn result_view(result: Result<ChatRequest, FetchError>) -> Result<
    ChatRequestView,
    FetchErrorView,
> {
    match result {
        Ok(request) => Ok(request@),
        Err(error) => Err(error@),
    }
}

/// The address of the completion endpoint under `base_url`, or under the
/// default base address where none is given.
pub fn endpoint(base_url: Option<&str>) -> (url: String)
    ensures
        url@ == spec_endpoint(
            match base_url {
                Some(given) => Some(given@),
                None => None,
            },
        ),
{
    let base = match base_url {
        Some(given) => chars_of(given),
        None => chars_of(DEFAULT_BASE_URL),
    };
    let mut url = strip_trailing_char(&base, '/');
    let path = chars_of(COMPLETIONS_PATH);
    append_chars(&mut url, &path);
    string_of(&url)
}

/// The messages of a request for the user's new message `user_msg`, made
/// with the transcript `history` as it was before that message.
pub fn request_messages(history: &ChatHistory, user_msg: &str) -> (messages: Vec<Message>)
    ensures
        views(messages@) == spec_request_messages(history@, user_msg@),
        messages@.len() == 2 + if history@.len() <= CONTEXT_WINDOW {
            history@.len()
        } else {
            CONTEXT_WINDOW as nat
        },
{
    let mut messages: Vec<Message> = Vec::new();
    messages.push(Message::new(Role::System, SYSTEM_INSTRUCTION.to_owned()));
    let ghost first = views(messages@);
    let mut window = history.recent(CONTEXT_WINDOW);
    let ghost context = views(window@);
    messages.append(&mut window);
    assert(views(messages@) =~= first + context);
    let ghost both = views(messages@);
    messages.push(Message::new(Role::User, user_msg.to_owned()));
    assert(views(messages@) =~= both + seq![
        MessageView { role: Role::User, content: user_msg@ },
    ]);
    assert(first =~= seq![MessageView { role: Role::System, content: SYSTEM_INSTRUCTION@ }]);
    messages
}

/// The request for the user's new message. Without a credential there is
/// none to make, whatever else is given.
pub fn build_request(
    api_key: Option<String>,
    base_url: Option<String>,
    history: &ChatHistory,
    user_msg: String,
) -> (request: Result<ChatRequest, FetchError>)
    ensures
        result_view(request) == spec_build_request(
            option_chars(api_key),
            option_chars(base_url),
            history@,
            user_msg@,
        ),
{
    match api_key {
        None => Err(FetchError::Configuration),
        Some(key) => {
            let url = match &base_url {
                Some(given) => endpoint(Some(given.as_str())),
                None => endpoint(None),
            };
            Ok(
                ChatRequest {
                    url,
                    api_key: key,
                    model: MODEL.to_owned(),
                    messages: request_messages(history, user_msg.as_str()),
                    temperature_tenths: TEMPERATURE_TENTHS,
                },
            )
        },
    }
}

/// The reply among the candidates that the service offers: the first one,
/// or a placeholder where there is none.
pub fn reply_from_choices(choices: &Vec<String>) -> (reply: String)
    ensures
        reply@ == spec_reply_from_choices(texts(choices@)),
{
    if choices.len() > 0 {
        choices[0].clone()
    } else {
        EMPTY_REPLY.to_owned()
    }
}

} // verus!
