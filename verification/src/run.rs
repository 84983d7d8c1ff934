//! From a configuration and what reading the input gave to what the program
//! shows and how it ends.
//!
//! Reading files and standard input is the caller's part. It hands over what
//! the read gave, the text or the cause of the failure in words, and gets back
//! the text to write and the exit status.

use vstd::prelude::*;
use vstd::string::StringExecFns;
use crate::args::{Args, ArgsView};
use crate::rotator::{rot_text, Rotator};

verus! {

/// The result of a run: the text to write, or the message that says what
/// went wrong.
pub type Outcome = Result<String, String>;

/// Exit status of a run that wrote its output.
pub const EXIT_SUCCESS: i32 = 0;

/// Exit status of a run that failed, whatever the reason.
pub const EXIT_FAILURE: i32 = 1;

/// What is written at the end of a run, and the status the process ends with.
#[derive(Debug)]
pub struct Report {
    /// The text to write, complete: nothing is added after it.
    pub text: String,
    /// The exit status: 0 after success, 1 after any failure.
    pub status: i32,
}

/// A `Result` of two strings as a `Result` of their characters.
pub open spec fn outcome_view(o: Result<String, String>) -> Result<Seq<char>, Seq<char>> {
    match o {
        Ok(text) => Ok(text@),
        Err(msg) => Err(msg@),
    }
}

/// The usage banner, shown after the message of every failure.
pub const USAGE: &'static str = "\nusage:\n  rot [filename] [-s|--shift n]\n";

/// The message for input that could not be read. `cause` says why; where the
/// input was a file, the message holds its path.
pub open spec fn read_failure_text(filepath: Option<Seq<char>>, cause: Seq<char>) -> Seq<char> {
    match filepath {
        None => "Error reading from stdin: "@ + cause,
        Some(path) => "Error reading from '"@ + path + "': "@ + cause,
    }
}

/// The input of a run: the text that was read, or the message for the
/// failure to read it.
pub open spec fn get_input_spec(
    filepath: Option<Seq<char>>,
    read: Result<Seq<char>, Seq<char>>,
) -> Result<Seq<char>, Seq<char>> {
    match read {
        Ok(text) => Ok(text),
        Err(cause) => Err(read_failure_text(filepath, cause)),
    }
}

/// What a run gives for a configuration and the result of reading its input:
/// the input shifted, or the message for the failure to read it.
pub open spec fn action_spec(args: ArgsView, read: Result<Seq<char>, Seq<char>>) -> Result<
    Seq<char>,
    Seq<char>,
> {
    match get_input_spec(args.filepath, read) {
        Ok(text) => Ok(rot_text(args.shift, text)),
        Err(msg) => Err(msg),
    }
}

/// What is shown for an outcome: the output as it is, or the message on a
/// line of its own followed by the usage banner.
pub open spec fn report_text(outcome: Result<Seq<char>, Seq<char>>) -> Seq<char> {
    match outcome {
        Ok(text) => text,
        Err(msg) => msg + "\n"@ + USAGE@,
    }
}

/// The input of a run, from what reading it gave. `read` is the whole text
/// of the source that `args` names, or the cause of the failure to read it;
/// a failure becomes the message to show, which names the source.
pub fn get_input(args: &Args, read: Result<String, String>) -> (input: Outcome)
    ensures
        outcome_view(input) == get_input_spec(args@.filepath, outcome_view(read)),
        input is Ok <==> read is Ok,
{
    match read {
        Ok(text) => Ok(text),
        Err(cause) => {
            let mut msg: String = String::new();
            match &args.filepath {
                None => {
                    msg.append("Error reading from stdin: ");
                },
                Some(path) => {
                    msg.append("Error reading from '");
                    msg.append(path.as_str());
                    msg.append("': ");
                },
            }
            msg.append(cause.as_str());
            Err(msg)
        },
    }
}

/// One run: the input, once it has been read, is shifted by `args.shift`. A
/// failure to read it ends the run with the message for it, and nothing is
/// shifted.
pub fn action(args: &Args, read: Result<String, String>) -> (outcome: Outcome)
    ensures
        outcome_view(outcome) == action_spec(args@, outcome_view(read)),
        outcome is Ok <==> read is Ok,
{
    let input: String = match get_input(args, read) {
        Ok(inp) => inp,
        Err(msg) => {
            return Err(msg);
        },
    };
    let rotator: Rotator = Rotator::new(args.shift);
    let output: String = rotator.rot_str(input.as_str());
    Ok(output)
}

/// What to write for an outcome, and the exit status. Output is written as
/// it is, with status 0. A failure gives its message, a line break and the
/// usage banner, with status 1.
pub fn report(outcome: Outcome) -> (r: Report)
    ensures
        r.text@ == report_text(outcome_view(outcome)),
        r.status == (if outcome is Ok { EXIT_SUCCESS } else { EXIT_FAILURE }),
{
    match outcome {
        Ok(text) => Report { text, status: EXIT_SUCCESS },
        Err(msg) => {
            let mut text: String = msg;
            text.append("\n");
            text.append(USAGE);
            Report { text, status: EXIT_FAILURE }
        },
    }
}

} // verus!
