use commit_scribe::commit::{commit_args, commit_outcome};
use commit_scribe::error::RunError;
use commit_scribe::menu::{parse_choice, MenuChoice};
use commit_scribe::request::{
    bearer_header, build_request, first_message, prompt_for, Choice, GroqResponse, ResponseMessage,
};
use commit_scribe::session::{step, Action, Event, Stage};

fn response_with(contents: &[&str]) -> GroqResponse {
    GroqResponse {
        id: "abc".to_string(),
        choices: contents
            .iter()
            .map(|c| Choice { message: ResponseMessage { content: c.to_string() } })
            .collect(),
    }
}

#[test]
fn prompt_wraps_diff_in_instruction() {
    assert_eq!(
        prompt_for("+a\n"),
        "Generate a concise commit message for the following git diff:\n+a\n\n\nDO NOT INCLUDE ANYTHING BUT THE COMMIT MESSAGE IN YOUR RESPONSE."
    );
}

#[test]
fn request_has_one_user_message_with_prompt() {
    let diff = "diff --git a/x.txt b/x.txt\n+hello\n";
    let r = build_request(diff);
    assert_eq!(r.model, "mixtral-8x7b-32768");
    assert_eq!(r.messages.len(), 1);
    assert_eq!(r.messages[0].role, "user");
    assert_eq!(r.messages[0].content, prompt_for(diff));
    assert_eq!(r.temperature_hundredths, 70);
    assert_eq!(r.max_tokens, 1000);
}

#[test]
fn bearer_header_carries_key() {
    assert_eq!(bearer_header("k-123"), "Bearer k-123");
}

#[test]
fn first_message_is_trimmed_first_candidate() {
    let r = first_message(&response_with(&["\n\n  Fix parser\n\nwith  details \n", "second"]));
    assert_eq!(r.unwrap(), "Fix parser\n\nwith  details");
}

#[test]
fn first_message_trims_unicode_white_space() {
    let r = first_message(&response_with(&["\u{a0}\u{3000}Msg\u{2029}"]));
    assert_eq!(r.unwrap(), "Msg");
}

#[test]
fn first_message_of_blank_candidate_is_empty() {
    assert_eq!(first_message(&response_with(&[" \t\n"])).unwrap(), "");
}

#[test]
fn no_candidate_is_no_completion() {
    assert!(matches!(first_message(&response_with(&[])), Err(RunError::NoCompletion)));
}

#[test]
fn menu_lines_map_to_choices() {
    assert_eq!(parse_choice("1"), MenuChoice::Commit);
    assert_eq!(parse_choice(" 1\n"), MenuChoice::Commit);
    assert_eq!(parse_choice("2\n"), MenuChoice::CommitWithEdit);
    assert_eq!(parse_choice(""), MenuChoice::Abort);
    assert_eq!(parse_choice("4"), MenuChoice::Abort);
    assert_eq!(parse_choice("3"), MenuChoice::Abort);
    assert_eq!(parse_choice("xyz"), MenuChoice::Abort);
    assert_eq!(parse_choice("12"), MenuChoice::Abort);
}

#[test]
fn commit_args_without_and_with_editor() {
    assert_eq!(commit_args("msg", false), vec!["commit", "-m", "msg"]);
    assert_eq!(commit_args("msg", true), vec!["commit", "-e", "-m", "msg"]);
}

#[test]
fn commit_outcome_wraps_stderr() {
    assert!(commit_outcome(true, "").is_ok());
    match commit_outcome(false, "fatal: nothing to commit") {
        Err(RunError::CommitFailed(t)) => assert_eq!(t, "Failed to commit: fatal: nothing to commit"),
        other => panic!("unexpected {:?}", other),
    }
}

#[test]
fn describe_gives_error_text() {
    assert_eq!(RunError::CommitFailed("Failed to commit: x".to_string()).describe(), "Failed to commit: x");
    assert_eq!(RunError::NoCompletion.describe(), "no completion produced");
    assert_eq!(RunError::MissingApiKey.describe(), "GROQ_API_KEY is not set");
}

#[test]
fn empty_diff_finishes_without_request() {
    let (next, action) = step(
        Stage::Start,
        Event::DiffRead { diff: String::new(), api_key: Some("key".to_string()) },
    );
    assert!(matches!(next, Stage::Finished));
    match action {
        Action::Finish { notice } => assert_eq!(notice, "No changes detected in the file."),
        other => panic!("unexpected {:?}", other),
    }
}

#[test]
fn missing_key_fails_before_request() {
    let (next, action) = step(Stage::Start, Event::DiffRead { diff: "+a\n".to_string(), api_key: None });
    assert!(matches!(next, Stage::Finished));
    assert!(matches!(action, Action::Fail { error: RunError::MissingApiKey }));
}

#[test]
fn empty_response_fails_run() {
    let (next, action) =
        step(Stage::AwaitingCompletion, Event::CompletionReceived { response: response_with(&[]) });
    assert!(matches!(next, Stage::Finished));
    assert!(matches!(action, Action::Fail { error: RunError::NoCompletion }));
}

fn run_to_menu(content: &str) -> Stage {
    let diff = "diff --git a/x.txt b/x.txt\n+hello\n".to_string();
    let (stage, action) = step(Stage::Start, Event::DiffRead { diff: diff.clone(), api_key: Some("key".to_string()) });
    match action {
        Action::Send { request, authorization } => {
            assert_eq!(request.messages.len(), 1);
            assert_eq!(request.messages[0].content, prompt_for(&diff));
            assert_eq!(authorization, "Bearer key");
        }
        other => panic!("unexpected {:?}", other),
    }
    let (stage, action) = step(stage, Event::CompletionReceived { response: response_with(&[content]) });
    match action {
        Action::Ask { message } => assert_eq!(message, "Add hello to x.txt"),
        other => panic!("unexpected {:?}", other),
    }
    stage
}

#[test]
fn scenario_commit_as_is() {
    let stage = run_to_menu("  Add hello to x.txt  ");
    let (stage, action) = step(stage, Event::ChoiceRead { line: "1\n".to_string() });
    match action {
        Action::Commit { message, edit } => {
            assert_eq!(message, "Add hello to x.txt");
            assert!(!edit);
        }
        other => panic!("unexpected {:?}", other),
    }
    let (stage, action) = step(stage, Event::CommitExited { success: true, stderr: String::new() });
    assert!(matches!(stage, Stage::Finished));
    match action {
        Action::Finish { notice } => assert_eq!(notice, "Successfully committed changes!"),
        other => panic!("unexpected {:?}", other),
    }
}

#[test]
fn choice_two_commits_through_editor() {
    let stage = run_to_menu("Add hello to x.txt\n");
    let (_, action) = step(stage, Event::ChoiceRead { line: "2".to_string() });
    match action {
        Action::Commit { message, edit } => {
            assert_eq!(message, "Add hello to x.txt");
            assert!(edit);
        }
        other => panic!("unexpected {:?}", other),
    }
}

#[test]
fn other_choices_abort() {
    for line in ["", "4", "xyz"] {
        let stage = run_to_menu("Add hello to x.txt");
        let (next, action) = step(stage, Event::ChoiceRead { line: line.to_string() });
        assert!(matches!(next, Stage::Finished));
        match action {
            Action::Finish { notice } => assert_eq!(notice, "Commit aborted."),
            other => panic!("unexpected {:?}", other),
        }
    }
}

#[test]
fn failed_commit_reports_stderr() {
    let (next, action) = step(
        Stage::AwaitingCommit,
        Event::CommitExited { success: false, stderr: "error: pathspec".to_string() },
    );
    assert!(matches!(next, Stage::Finished));
    match action {
        Action::Fail { error: RunError::CommitFailed(t) } => {
            assert!(t.contains("error: pathspec"));
            assert_eq!(t, "Failed to commit: error: pathspec");
        }
        other => panic!("unexpected {:?}", other),
    }
}

#[test]
fn event_out_of_order_is_refused() {
    let (next, action) = step(Stage::Finished, Event::ChoiceRead { line: "1".to_string() });
    assert!(matches!(next, Stage::Finished));
    assert!(matches!(action, Action::Fail { error: RunError::UnexpectedEvent }));
}
