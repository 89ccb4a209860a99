use vstd::prelude::*;

use crate::error::RunError;

verus! {

/// What stands before the tool's stderr in the error of a failed commit.
pub const COMMIT_FAILED_HEAD: &'static str = "Failed to commit: ";

/// The arguments of the commit command for `message`; with `edit` the
/// editor is opened on the message before the commit is made.
pub open spec fn commit_args_seq(message: Seq<char>, edit: bool) -> Seq<Seq<char>> {
    if edit {
        seq!["commit"@, "-e"@, "-m"@, message]
    } else {
        seq!["commit"@, "-m"@, message]
    }
}

/// The error text of a failed commit whose tool wrote `stderr`.
pub open spec fn commit_failed_text(stderr: Seq<char>) -> Seq<char> {
    COMMIT_FAILED_HEAD@ + stderr
}

/// The arguments handed to the version-control tool to commit `message`.
pub fn commit_args(message: &str, edit: bool) -> (r: Vec<String>)
    ensures
        r@.len() == commit_args_seq(message@, edit).len(),
        forall|i: int| 0 <= i < r@.len() ==> #[trigger] r@[i]@ == commit_args_seq(message@, edit)[i],
{
    let mut args: Vec<String> = Vec::new();
    args.push(String::from_str("commit"));
    if edit {
        args.push(String::from_str("-e"));
    }
    args.push(String::from_str("-m"));
    args.push(String::from_str(message));
    args
}

/// The result of a commit whose tool exited with `success` and wrote `stderr`.
pub fn commit_outcome(success: bool, stderr: &str) -> (r: Result<(), RunError>)
    ensures
        r is Ok <==> success,
        !success ==> (r->Err_0 matches RunError::CommitFailed(text) && text@ == commit_failed_text(stderr@)),
{
    if success {
        Ok(())
    } else {
        let mut text = String::from_str(COMMIT_FAILED_HEAD);
        text.append(stderr);
        Err(RunError::CommitFailed(text))
    }
}

} // verus!
