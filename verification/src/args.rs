//! The command line of `rot`, read from the list of its arguments.
//!
//! The list starts with the program's name, which is not looked at. After it
//! the accepted forms are:
//!
//! ```text
//! rot                          shift 13, input from standard input
//! rot <filepath>               shift 13, input from the file
//! rot -s|--shift <n>           shift n,  input from standard input
//! rot -s|--shift <n> <filepath>  shift n,  input from the file
//! ```
//!
//! A single argument is always a file path, even where it looks like a number.

use vstd::prelude::*;
use vstd::string::StringExecFns;
use crate::number::{parse_shift, parse_shift_spec, ShiftError};

verus! {

/// The shift that applies where none is given.
pub const DEFAULT_SHIFT: i32 = 13;

/// The long spelling of the flag that announces a shift.
pub const LONG_FLAG: &'static str = "--shift";

/// The short spelling of the flag that announces a shift.
pub const SHORT_FLAG: &'static str = "-s";

/// The message for an argument list of no accepted form.
pub const INVALID_ARGUMENTS: &'static str = "Invalid arguments";

/// What a command line asks for.
#[derive(Debug)]
pub struct Args {
    /// The file to read; standard input where there is none.
    pub filepath: Option<String>,
    /// The number of places to shift letters by.
    pub shift: i32,
}

/// `Args` as plain mathematical values.
pub struct ArgsView {
    pub filepath: Option<Seq<char>>,
    pub shift: int,
}

impl View for Args {
    type V = ArgsView;

    open spec fn view(&self) -> ArgsView {
        ArgsView { filepath: self.filepath.deep_view(), shift: self.shift as int }
    }
}

/// The token is one of the two spellings of the shift flag.
pub open spec fn is_shift_flag(token: Seq<char>) -> bool {
    token == LONG_FLAG@ || token == SHORT_FLAG@
}

/// The message for a shift that cannot be read as a number.
pub open spec fn bad_shift_text(e: ShiftError) -> Seq<char> {
    "--shift Expects a number: "@ + e.text()
}

/// What a flag, the text after it and the file path, if any, ask for.
pub open spec fn parse_flagged(
    flag: Seq<char>,
    number: Seq<char>,
    filepath: Option<Seq<char>>,
) -> Result<ArgsView, Seq<char>> {
    if !is_shift_flag(flag) {
        Err(INVALID_ARGUMENTS@)
    } else {
        match parse_shift_spec(number) {
            Ok(shift) => Ok(ArgsView { filepath, shift }),
            Err(e) => Err(bad_shift_text(e)),
        }
    }
}

/// What the argument list `argv`, program name first, asks for: the
/// configuration, or the message that says why there is none.
pub open spec fn parse_args_spec(argv: Seq<Seq<char>>) -> Result<ArgsView, Seq<char>> {
    if argv.len() == 1 {
        Ok(ArgsView { filepath: None, shift: DEFAULT_SHIFT as int })
    } else if argv.len() == 2 {
        Ok(ArgsView { filepath: Some(argv[1]), shift: DEFAULT_SHIFT as int })
    } else if argv.len() == 3 {
        parse_flagged(argv[1], argv[2], None)
    } else if argv.len() == 4 {
        parse_flagged(argv[1], argv[2], Some(argv[3]))
    } else {
        Err(INVALID_ARGUMENTS@)
    }
}

/// The argument list has one of the accepted forms: the program's name
/// alone, or with a file path, or with a shift flag and a number, or with a
/// shift flag, a number and a file path.
pub open spec fn accepted(argv: Seq<Seq<char>>) -> bool {
    ||| argv.len() == 1
    ||| argv.len() == 2
    ||| (argv.len() == 3 || argv.len() == 4) && is_shift_flag(argv[1]) && parse_shift_spec(
        argv[2],
    ) is Ok
}

/// Tells whether `token` is `--shift` or `-s`.
pub fn is_flag(token: &String) -> (b: bool)
    ensures
        b == is_shift_flag(token@),
{
    let long: String = String::from_str(LONG_FLAG);
    let short: String = String::from_str(SHORT_FLAG);
    *token == long || *token == short
}

/// The configuration that a flag, the text after it and an optional file path
/// ask for, or the message that says what is wrong with them.
fn flagged(flag: &String, number: &String, filepath: Option<String>) -> (r: Result<Args, String>)
    ensures
        match r {
            Ok(args) => parse_flagged(flag@, number@, filepath.deep_view()) == Ok::<
                ArgsView,
                Seq<char>,
            >(args@),
            Err(msg) => parse_flagged(flag@, number@, filepath.deep_view()) == Err::<
                ArgsView,
                Seq<char>,
            >(msg@),
        },
{
    if !is_flag(flag) {
        return Err(String::from_str(INVALID_ARGUMENTS));
    }
    match parse_shift(number.as_str()) {
        Ok(shift) => Ok(Args { filepath, shift }),
        Err(e) => {
            let mut msg: String = String::from_str("--shift Expects a number: ");
            let cause: String = e.message();
            msg.append(cause.as_str());
            Err(msg)
        },
    }
}

/// Reads the argument list `argv`, whose first entry is the program's name.
/// Only the number of arguments and what follows the name matter. There is no
/// fallback: a list of no accepted form gives a message and no configuration.
pub fn parse_args(argv: &Vec<String>) -> (r: Result<Args, String>)
    ensures
        match r {
            Ok(args) => parse_args_spec(argv.deep_view()) == Ok::<ArgsView, Seq<char>>(args@),
            Err(msg) => parse_args_spec(argv.deep_view()) == Err::<ArgsView, Seq<char>>(msg@),
        },
        r is Ok <==> accepted(argv.deep_view()),
{
    let count: usize = argv.len();
    if count == 1 {
        Ok(Args { filepath: None, shift: DEFAULT_SHIFT })
    } else if count == 2 {
        Ok(Args { filepath: Some(argv[1].clone()), shift: DEFAULT_SHIFT })
    } else if count == 3 {
        flagged(&argv[1], &argv[2], None)
    } else if count == 4 {
        flagged(&argv[1], &argv[2], Some(argv[3].clone()))
    } else {
        Err(String::from_str(INVALID_ARGUMENTS))
    }
}

} // verus!
