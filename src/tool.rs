use vstd::prelude::*;
use crate::errors::YuchiError;
use crate::text::{split_words, views, words};

verus! {

pub const CANCELLED: &'static str = "Command execution cancelled by user.";

pub const EMPTY_COMMAND: &'static str = "Empty command";

/// What to do once the user has answered the confirmation.
#[derive(Debug, Clone, PartialEq, Eq)]
pub enum RunPlan {
    /// Run nothing; the outcome text that says so.
    Cancelled(String),
    /// Spawn `program` with `args`.
    Execute { program: String, args: Vec<String> },
}

/// The question put to the user before a command runs.
pub fn confirmation_prompt(command: &str, dir: &str) -> (r: String)
    ensures
        r@ == "Run `"@ + command@ + "` in "@ + dir@ + "? (y/n): "@,
{
    String::from_str("Run `").concat(command).concat("` in ").concat(dir).concat("? (y/n): ")
}

/// An answer confirms only when it is exactly `y` or `Y`.
pub open spec fn confirms(answer: Seq<char>) -> bool {
    answer == "y"@ || answer == "Y"@
}

/// Whether the user's answer confirms the command.
pub fn confirmed(answer: &str) -> (r: bool)
    ensures
        r == confirms(answer@),
{
    let t = answer.to_owned();
    t == String::from_str("y") || t == String::from_str("Y")
}

/// The program and arguments of a command line: its white-space separated words,
/// with no quoting and no shell.
pub fn command_line(command: &str) -> (r: Result<(String, Vec<String>), YuchiError>)
    ensures
        words(command@).len() == 0 ==> (r matches Err(YuchiError::Tool(m)) && m@ == EMPTY_COMMAND@),
        words(command@).len() > 0 ==> (r matches Ok((p, args)) && p@ == words(command@)[0] && views(
            args@,
        ) == words(command@).drop_first()),
{
    let mut parts = split_words(command);
    if parts.len() == 0 {
        return Err(YuchiError::Tool(EMPTY_COMMAND.to_owned()));
    }
    let ghost all = parts@;
    let program = parts.remove(0);
    assert(views(parts@) =~= views(all).drop_first());
    Ok((program, parts))
}

/// What follows the user's answer: a cancellation unless it confirms, else the
/// program to spawn, or a `Tool` error for a command with no words.
pub fn decide_run(command: &str, answer: &str) -> (r: Result<RunPlan, YuchiError>)
    ensures
        !confirms(answer@) ==> (r matches Ok(RunPlan::Cancelled(t)) && t@ == CANCELLED@),
        confirms(answer@) && words(command@).len() == 0 ==> (r matches Err(YuchiError::Tool(m))
            && m@ == EMPTY_COMMAND@),
        confirms(answer@) && words(command@).len() > 0 ==> (r matches Ok(
            RunPlan::Execute { program, args },
        ) && program@ == words(command@)[0] && views(args@) == words(command@).drop_first()),
{
    if !confirmed(answer) {
        return Ok(RunPlan::Cancelled(CANCELLED.to_owned()));
    }
    match command_line(command) {
        Ok((program, args)) => Ok(RunPlan::Execute { program, args }),
        Err(e) => Err(e),
    }
}

/// The outcome of a cancelled command: its text, and that it did not succeed.
pub fn cancelled() -> (r: (String, bool))
    ensures
        r.0@ == CANCELLED@,
        !r.1,
{
    (CANCELLED.to_owned(), false)
}

/// The `Tool` error for a command that could not be spawned.
pub fn spawn_error(command: &str, why: &str) -> (r: YuchiError)
    ensures
        r matches YuchiError::Tool(m) && m@ == "Failed to execute `"@ + command@ + "`: "@ + why@,
{
    YuchiError::Tool(String::from_str("Failed to execute `").concat(command).concat("`: ").concat(why))
}

/// The text of a finished command: what it printed to standard output where it
/// succeeded, to standard error where it failed.
pub open spec fn outcome_text(command: Seq<char>, success: bool, stdout: Seq<char>, stderr: Seq<char>) -> Seq<char> {
    if success {
        "`"@ + command + "` succeeded:\n"@ + stdout
    } else {
        "`"@ + command + "` failed:\n"@ + stderr
    }
}

/// The outcome of a finished command, from its decoded output.
pub fn outcome_of(command: &str, success: bool, stdout: &str, stderr: &str) -> (r: (String, bool))
    ensures
        r.0@ == outcome_text(command@, success, stdout@, stderr@),
        r.1 == success,
{
    let text = if success {
        String::from_str("`").concat(command).concat("` succeeded:\n").concat(stdout)
    } else {
        String::from_str("`").concat(command).concat("` failed:\n").concat(stderr)
    };
    (text, success)
}

/// The text of some bytes decoded as UTF-8, each invalid sequence replaced by
/// U+FFFD.
pub uninterp spec fn lossy_of(bytes: Seq<u8>) -> Seq<char>;

/// Relies on `String::from_utf8_lossy`: the result depends on the bytes alone, and
/// no bytes give no text.
#[verifier::external_body]
fn decode_lossy(bytes: &Vec<u8>) -> (r: String)
    ensures
        r@ == lossy_of(bytes@),
        bytes@.len() == 0 ==> r@.len() == 0,
{
    String::from_utf8_lossy(bytes).into_owned()
}

/// The outcome of a finished command, from its exit status and raw output.
pub fn tool_outcome(command: &str, success: bool, stdout: &Vec<u8>, stderr: &Vec<u8>) -> (r: (String, bool))
    ensures
        r.0@ == outcome_text(command@, success, lossy_of(stdout@), lossy_of(stderr@)),
        r.1 == success,
{
    let out = decode_lossy(stdout);
    let err = decode_lossy(stderr);
    outcome_of(command, success, out.as_str(), err.as_str())
}

} // verus!
