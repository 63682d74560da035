//! A chat panel for a real-time simulation's front-end: a multi-line text
//! input, the session controller that drives it, and the reading of replies
//! for pause and resume directives.

pub mod chars;
pub mod chat;
pub mod command;
pub mod history;
pub mod input;
pub mod multiline_text_box;
pub mod panel;
pub mod request;
pub mod screen;
pub mod text_edit;
