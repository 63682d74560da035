//! Reading a reply for a pause or resume directive.

use crate::chars::{
    chars_of, contains, lowercase_of, same_chars, search, to_lowercase, trim, trimmed,
};
use vstd::prelude::*;

verus! {

/// A directive for the simulation's speed control.
#[derive(Clone, Copy, Debug, PartialEq, Eq, Structural)]
pub enum ChatCommand {
    Pause,
    Resume,
}

/// Whether lower-case text asks for a pause: it holds `action: pause` or
/// `/pause` somewhere, or is the single word `pause` once trimmed.
pub open spec fn asks_pause(lower: Seq<char>) -> bool {
    contains(lower, "action: pause"@) || trimmed(lower) == "pause"@ || contains(lower, "/pause"@)
}

/// Whether lower-case text asks to resume: it holds `action: resume`,
/// `/resume` or `/play` somewhere, or is the single word `resume` once
/// trimmed.
pub open spec fn asks_resume(lower: Seq<char>) -> bool {
    contains(lower, "action: resume"@) || trimmed(lower) == "resume"@ || contains(
        lower,
        "/resume"@,
    ) || contains(lower, "/play"@)
}

/// The directive that lower-case text carries, if any. Pause is looked for
/// first, so text that asks for both is a pause.
pub open spec fn directive(lower: Seq<char>) -> Option<ChatCommand> {
    if asks_pause(lower) {
        Some(ChatCommand::Pause)
    } else if asks_resume(lower) {
        Some(ChatCommand::Resume)
    } else {
        None
    }
}

/// Text that asks both to pause and to resume is read as a pause.
pub proof fn lemma_pause_wins(lower: Seq<char>)
    requires
        asks_pause(lower),
    ensures
        directive(lower) == Some(ChatCommand::Pause),
{
}

/// Whether `lower` holds `marker` somewhere.
fn holds(lower: &Vec<char>, marker: &str) -> (found: bool)
    ensures
        found == contains(lower@, marker@),
{
    let needle = chars_of(marker);
    search(lower, &needle)
}

/// Whether `word` is all that `lower` holds besides whitespace around it.
fn is_word(lower: &Vec<char>, word: &str) -> (same: bool)
    ensures
        same == (trimmed(lower@) == word@),
{
    let core = trim(lower);
    let expected = chars_of(word);
    same_chars(&core, &expected)
}

/// The directive that text already folded to lower case carries, if any.
pub fn classify(lower: &str) -> (command: Option<ChatCommand>)
    ensures
        command == directive(lower@),
{
    let text = chars_of(lower);
    if holds(&text, "action: pause") || is_word(&text, "pause") || holds(&text, "/pause") {
        Some(ChatCommand::Pause)
    } else if holds(&text, "action: resume") || is_word(&text, "resume") || holds(
        &text,
        "/resume",
    ) || holds(&text, "/play") {
        Some(ChatCommand::Resume)
    } else {
        None
    }
}

/// The directive that a reply carries, if any, whatever its letter case.
pub fn parse_command(reply: &str) -> (command: Option<ChatCommand>)
    ensures
        command == directive(lowercase_of(reply@)),
{
    let lower = to_lowercase(reply);
    classify(lower.as_str())
}

} // verus!
