use chatbox::command::{classify, parse_command, ChatCommand};

#[test]
fn reply_with_action_marker_pauses() {
    assert_eq!(parse_command("Sure, ACTION: pause now"), Some(ChatCommand::Pause));
}

#[test]
fn reply_with_slash_resume_resumes() {
    assert_eq!(parse_command("ok. /resume"), Some(ChatCommand::Resume));
}

#[test]
fn reply_that_is_the_word_resume_resumes() {
    assert_eq!(parse_command("  Resume\n"), Some(ChatCommand::Resume));
    assert_eq!(parse_command("RESUME"), Some(ChatCommand::Resume));
}

#[test]
fn classify_reads_lower_case_only() {
    assert_eq!(classify("action: pause"), Some(ChatCommand::Pause));
    assert_eq!(classify("ACTION: PAUSE"), None);
}

#[test]
fn every_pause_marker_is_read() {
    assert_eq!(parse_command("action: pause"), Some(ChatCommand::Pause));
    assert_eq!(parse_command("  PAUSE \n"), Some(ChatCommand::Pause));
    assert_eq!(parse_command("please /pause"), Some(ChatCommand::Pause));
}

#[test]
fn every_resume_marker_is_read() {
    assert_eq!(parse_command("Action: Resume"), Some(ChatCommand::Resume));
    assert_eq!(parse_command("resume"), Some(ChatCommand::Resume));
    assert_eq!(parse_command("go /resume"), Some(ChatCommand::Resume));
    assert_eq!(parse_command("now /PLAY"), Some(ChatCommand::Resume));
}

#[test]
fn reply_without_marker_gives_nothing() {
    assert_eq!(parse_command(""), None);
    assert_eq!(parse_command("The traffic is heavy."), None);
    assert_eq!(parse_command("pause it"), None);
    assert_eq!(parse_command("I will resume later"), None);
    assert_eq!(parse_command("action:pause"), None);
}

#[test]
fn reply_with_both_markers_pauses() {
    assert_eq!(parse_command("/resume then ACTION: pause"), Some(ChatCommand::Pause));
    assert_eq!(parse_command("/pause /play"), Some(ChatCommand::Pause));
}
