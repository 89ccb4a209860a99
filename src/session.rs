use vstd::prelude::*;

use crate::commit::{commit_failed_text, commit_outcome};
use crate::error::RunError;
use crate::menu::{choice_of, parse_choice, MenuChoice};
use crate::request::{
    bearer_header, bearer_text, build_request, first_message, first_message_text, is_request_for,
    GroqRequest, GroqResponse,
};

verus! {

/// Printed when nothing is staged.
pub const NO_CHANGES_TEXT: &'static str = "No changes detected in the file.";

/// Printed when the user does not pick a commit.
pub const ABORTED_TEXT: &'static str = "Commit aborted.";

/// Printed after a commit was made.
pub const COMMITTED_TEXT: &'static str = "Successfully committed changes!";

/// Where a run stands.
#[derive(Debug, Clone)]
pub enum Stage {
    /// Waiting for the staged diff.
    Start,
    /// The request was sent; waiting for its response.
    AwaitingCompletion,
    /// The message was shown; waiting for the user's menu line.
    AwaitingChoice { message: String },
    /// The commit command was started; waiting for its exit.
    AwaitingCommit,
    /// The run is over.
    Finished,
}

/// What the outside world reports to the run.
#[derive(Debug, Clone)]
pub enum Event {
    /// The staged diff was read, and the credential looked up.
    DiffRead { diff: String, api_key: Option<String> },
    /// The completion endpoint answered.
    CompletionReceived { response: GroqResponse },
    /// The user entered a menu line.
    ChoiceRead { line: String },
    /// The commit command exited.
    CommitExited { success: bool, stderr: String },
}

/// What the run asks the outside world to do next.
#[derive(Debug, Clone)]
pub enum Action {
    /// Print `notice` and end the run successfully.
    Finish { notice: String },
    /// Post `request` to the completion endpoint with `authorization` as header.
    Send { request: GroqRequest, authorization: String },
    /// Show `message` with the menu and read one line.
    Ask { message: String },
    /// Run the commit command on `message`, through the editor when `edit` holds.
    Commit { message: String, edit: bool },
    /// End the run with `error`.
    Fail { error: RunError },
}

/// Whether `action` prints `text` and ends the run.
pub open spec fn finishes_with(action: Action, text: Seq<char>) -> bool {
    action matches Action::Finish { notice } && notice@ == text
}

/// Whether `action` ends the run with an error of which `p` holds.
pub open spec fn fails_with(action: Action, p: spec_fn(RunError) -> bool) -> bool {
    action matches Action::Fail { error } && p(error)
}

/// The transitions of a run: from `stage`, on `event`, the run moves to
/// `next` and asks for `action`.
pub open spec fn transition(stage: Stage, event: Event, next: Stage, action: Action) -> bool {
    match (stage, event) {
        (Stage::Start, Event::DiffRead { diff, api_key }) => {
            if diff@.len() == 0 {
                next is Finished && finishes_with(action, NO_CHANGES_TEXT@)
            } else if api_key is None {
                next is Finished && fails_with(action, |e: RunError| e is MissingApiKey)
            } else {
                &&& next is AwaitingCompletion
                &&& action matches Action::Send { request, authorization }
                &&& is_request_for(request, diff@)
                &&& authorization@ == bearer_text(api_key->0@)
            }
        },
        (Stage::AwaitingCompletion, Event::CompletionReceived { response }) => {
            if response.choices@.len() == 0 {
                next is Finished && fails_with(action, |e: RunError| e is NoCompletion)
            } else {
                &&& next matches Stage::AwaitingChoice { message }
                &&& message@ == first_message_text(response)
                &&& action matches Action::Ask { message: shown }
                &&& shown@ == first_message_text(response)
            }
        },
        (Stage::AwaitingChoice { message }, Event::ChoiceRead { line }) => {
            match choice_of(line@) {
                MenuChoice::Commit => {
                    &&& next is AwaitingCommit
                    &&& action matches Action::Commit { message: m, edit }
                    &&& m@ == message@ && !edit
                },
                MenuChoice::CommitWithEdit => {
                    &&& next is AwaitingCommit
                    &&& action matches Action::Commit { message: m, edit }
                    &&& m@ == message@ && edit
                },
                MenuChoice::Abort => next is Finished && finishes_with(action, ABORTED_TEXT@),
            }
        },
        (Stage::AwaitingCommit, Event::CommitExited { success, stderr }) => {
            if success {
                next is Finished && finishes_with(action, COMMITTED_TEXT@)
            } else {
                next is Finished && fails_with(
                    action,
                    |e: RunError| e matches RunError::CommitFailed(t) && t@ == commit_failed_text(stderr@),
                )
            }
        },
        _ => next is Finished && fails_with(action, |e: RunError| e is UnexpectedEvent),
    }
}

fn finish(text: &str) -> (r: (Stage, Action))
    ensures
        r.0 is Finished,
        finishes_with(r.1, text@),
{
    (Stage::Finished, Action::Finish { notice: String::from_str(text) })
}

fn fail(error: RunError) -> (r: (Stage, Action))
    ensures
        r.0 is Finished,
        r.1 == (Action::Fail { error }),
{
    (Stage::Finished, Action::Fail { error })
}

/// Takes the run one step: from `stage`, on `event`, to the next stage and
/// the action that the outside world performs.
pub fn step(stage: Stage, event: Event) -> (r: (Stage, Action))
    ensures
        transition(stage, event, r.0, r.1),
{
    match (stage, event) {
        (Stage::Start, Event::DiffRead { diff, api_key }) => {
            if diff.as_str().is_empty() {
                finish(NO_CHANGES_TEXT)
            } else {
                match api_key {
                    None => fail(RunError::MissingApiKey),
                    Some(key) => {
                        let request = build_request(diff.as_str());
                        let authorization = bearer_header(key.as_str());
                        (Stage::AwaitingCompletion, Action::Send { request, authorization })
                    },
                }
            }
        },
        (Stage::AwaitingCompletion, Event::CompletionReceived { response }) => {
            match first_message(&response) {
                Err(error) => fail(error),
                Ok(message) => {
                    let shown = message.clone();
                    (Stage::AwaitingChoice { message }, Action::Ask { message: shown })
                },
            }
        },
        (Stage::AwaitingChoice { message }, Event::ChoiceRead { line }) => {
            match parse_choice(line.as_str()) {
                MenuChoice::Commit => (Stage::AwaitingCommit, Action::Commit { message, edit: false }),
                MenuChoice::CommitWithEdit => (
                    Stage::AwaitingCommit,
                    Action::Commit { message, edit: true },
                ),
                MenuChoice::Abort => finish(ABORTED_TEXT),
            }
        },
        (Stage::AwaitingCommit, Event::CommitExited { success, stderr }) => {
            match commit_outcome(success, stderr.as_str()) {
                Ok(()) => finish(COMMITTED_TEXT),
                Err(error) => fail(error),
            }
        },
        _ => fail(RunError::UnexpectedEvent),
    }
}

/// Whether `stages`, `events` and `actions` form a run from the start: the
/// run begins at `Start`, and step `i` goes from `stages[i]` on `events[i]` to
/// `stages[i + 1]`, asking for `actions[i]`.
pub open spec fn is_run(stages: Seq<Stage>, events: Seq<Event>, actions: Seq<Action>) -> bool {
    &&& stages.len() == events.len() + 1
    &&& actions.len() == events.len()
    &&& stages[0] is Start
    &&& forall|i: int|
        0 <= i < events.len() ==> transition(#[trigger] stages[i], events[i], stages[i + 1], actions[i])
}

/// No step leads back to the start; a request is sent only from the start;
/// a commit is started only from the menu; a finished run stays finished and
/// asks for nothing but an error.
pub proof fn lemma_transition_shape(stage: Stage, event: Event, next: Stage, action: Action)
    requires
        transition(stage, event, next, action),
    ensures
        !(next is Start),
        action is Send ==> stage is Start,
        action is Commit ==> stage is AwaitingChoice,
        stage is Finished ==> next is Finished && action is Fail,
{
}

proof fn lemma_finished_stays(stages: Seq<Stage>, events: Seq<Event>, actions: Seq<Action>, k: int)
    requires
        is_run(stages, events, actions),
        0 <= k < stages.len(),
        stages[k] is Finished,
    ensures
        forall|j: int| k <= j < stages.len() ==> #[trigger] stages[j] is Finished,
    decreases stages.len() - k,
{
    if k + 1 < stages.len() {
        lemma_transition_shape(stages[k], events[k], stages[k + 1], actions[k]);
        lemma_finished_stays(stages, events, actions, k + 1);
    }
}

/// A run sends at most one request, and only at its first step, where it
/// holds the prompt for the diff that was read; with a non-empty diff and a
/// credential that first step does send it.
pub proof fn law_single_request(stages: Seq<Stage>, events: Seq<Event>, actions: Seq<Action>)
    requires
        is_run(stages, events, actions),
    ensures
        forall|i: int| 0 <= i < actions.len() && #[trigger] actions[i] is Send ==> i == 0,
        actions.len() > 0 && actions[0] is Send ==> (events[0] matches Event::DiffRead { diff, .. }
            && is_request_for(actions[0]->request, diff@)),
        actions.len() > 0 ==> (events[0] matches Event::DiffRead { diff, api_key }
            && diff@.len() > 0 && api_key is Some ==> actions[0] is Send),
{
    assert forall|i: int| 0 <= i < actions.len() && #[trigger] actions[i] is Send implies i == 0 by {
        lemma_transition_shape(stages[i], events[i], stages[i + 1], actions[i]);
        if i > 0 {
            lemma_transition_shape(stages[i - 1], events[i - 1], stages[i], actions[i - 1]);
        }
    }
    if actions.len() > 0 {
        assert(transition(stages[0], events[0], stages[1], actions[0]));
    }
}

/// A run whose first step ends it (nothing staged, or no credential) sends
/// no request and makes no commit.
proof fn lemma_first_step_ends(stages: Seq<Stage>, events: Seq<Event>, actions: Seq<Action>)
    requires
        is_run(stages, events, actions),
        actions.len() > 0,
        stages[1] is Finished,
        !(actions[0] is Send),
        !(actions[0] is Commit),
    ensures
        forall|i: int| 0 <= i < actions.len() ==> !(#[trigger] actions[i] is Send) && !(actions[i] is Commit),
{
    lemma_finished_stays(stages, events, actions, 1);
    assert forall|i: int| 0 <= i < actions.len() implies !(#[trigger] actions[i] is Send) && !(actions[i] is Commit) by {
        if i > 0 {
            assert(stages[i] is Finished);
            lemma_transition_shape(stages[i], events[i], stages[i + 1], actions[i]);
        }
    }
}

/// When nothing is staged, a run prints that no changes were found, and
/// sends no request and makes no commit at any step.
pub proof fn law_empty_diff_does_nothing(stages: Seq<Stage>, events: Seq<Event>, actions: Seq<Action>)
    requires
        is_run(stages, events, actions),
        actions.len() > 0,
        events[0] matches Event::DiffRead { diff, .. } && diff@.len() == 0,
    ensures
        finishes_with(actions[0], NO_CHANGES_TEXT@),
        forall|i: int| 0 <= i < actions.len() ==> !(#[trigger] actions[i] is Send) && !(actions[i] is Commit),
{
    assert(transition(stages[0], events[0], stages[1], actions[0]));
    lemma_first_step_ends(stages, events, actions);
}

/// When a diff is staged but no credential is configured, a run fails with
/// `MissingApiKey` and sends no request and makes no commit at any step.
pub proof fn law_missing_key_sends_nothing(stages: Seq<Stage>, events: Seq<Event>, actions: Seq<Action>)
    requires
        is_run(stages, events, actions),
        actions.len() > 0,
        events[0] matches Event::DiffRead { diff, api_key } && diff@.len() > 0 && api_key is None,
    ensures
        actions[0] matches Action::Fail { error } && error is MissingApiKey,
        forall|i: int| 0 <= i < actions.len() ==> !(#[trigger] actions[i] is Send) && !(actions[i] is Commit),
{
    assert(transition(stages[0], events[0], stages[1], actions[0]));
    lemma_first_step_ends(stages, events, actions);
}

/// When the commit tool fails, the run fails with an error whose text ends
/// with the tool's stderr, and does not report a successful commit.
pub proof fn law_failed_commit_reports_stderr(stderr: Seq<char>, event: Event, next: Stage, action: Action)
    requires
        event matches Event::CommitExited { success, stderr: e } && !success && e@ == stderr,
        transition(Stage::AwaitingCommit, event, next, action),
    ensures
        action matches Action::Fail { error } && error matches RunError::CommitFailed(t)
            && t@.len() >= stderr.len()
            && t@.subrange(t@.len() - stderr.len(), t@.len() as int) == stderr,
        !finishes_with(action, COMMITTED_TEXT@),
        next is Finished,
{
    let t = action->error->CommitFailed_0;
    assert(t@ == commit_failed_text(stderr));
    assert(t@.subrange(t@.len() - stderr.len(), t@.len() as int) =~= stderr);
}

} // verus!
