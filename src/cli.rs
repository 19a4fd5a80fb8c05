use vstd::prelude::*;
use vstd::string::*;

use crate::help::{get_help_msg, help_text};

verus! {

/// Output path used when none is given.
pub open spec fn default_output() -> Seq<char> {
    "compressed_video.mcap"@
}

/// What the command line asks for.
pub enum CliAction {
    /// Print the usage text and stop.
    Help,
    /// Check that the program starts, and stop.
    WarmUp,
    /// Convert `input` into `output`; `silent` turns off per-record printing.
    Run { input: String, output: String, silent: bool },
}

/// Why a command line was refused.
pub enum CliError {
    /// `--input`/`-i` came last, with no value after it.
    MissingInputValue,
    /// `--output`/`-o` came last, with no value after it.
    MissingOutputValue,
    /// An argument that is no known option.
    UnexpectedArgument(String),
    /// No `--input`/`-i` was given.
    NoInput,
}

/// The command line's meaning in plain values.
pub enum CliOutcome {
    Help,
    WarmUp,
    Run { input: Seq<char>, output: Seq<char>, silent: bool },
    MissingInputValue,
    MissingOutputValue,
    UnexpectedArgument(Seq<char>),
    NoInput,
}

pub open spec fn is_input_flag(a: Seq<char>) -> bool {
    a == "--input"@ || a == "-i"@
}

pub open spec fn is_output_flag(a: Seq<char>) -> bool {
    a == "--output"@ || a == "-o"@
}

pub open spec fn is_help_flag(a: Seq<char>) -> bool {
    a == "--help"@ || a == "-h"@
}

/// Reads `args` from position `i` on, with the options seen so far. Options
/// are read left to right; a later value replaces an earlier one; help stops
/// the reading at once; the first faulty argument decides the error.
pub open spec fn parse_from(
    args: Seq<Seq<char>>,
    i: nat,
    input: Option<Seq<char>>,
    output: Seq<char>,
    silent: bool,
    warm_up: bool,
) -> CliOutcome
    decreases args.len() - i,
{
    if i >= args.len() {
        if warm_up {
            CliOutcome::WarmUp
        } else {
            match input {
                Some(p) => CliOutcome::Run { input: p, output, silent },
                None => CliOutcome::NoInput,
            }
        }
    } else {
        let a = args[i as int];
        if is_input_flag(a) {
            if i + 1 < args.len() {
                parse_from(args, i + 2, Some(args[i + 1 as int]), output, silent, warm_up)
            } else {
                CliOutcome::MissingInputValue
            }
        } else if is_output_flag(a) {
            if i + 1 < args.len() {
                parse_from(args, i + 2, input, args[i + 1 as int], silent, warm_up)
            } else {
                CliOutcome::MissingOutputValue
            }
        } else if a == "--silent"@ {
            parse_from(args, i + 1, input, output, true, warm_up)
        } else if a == "--warm-up"@ {
            parse_from(args, i + 1, input, output, silent, true)
        } else if is_help_flag(a) {
            CliOutcome::Help
        } else {
            CliOutcome::UnexpectedArgument(a)
        }
    }
}

/// The meaning of the arguments that follow the program name.
pub open spec fn parse_spec(args: Seq<Seq<char>>) -> CliOutcome {
    parse_from(args, 0, None, default_output(), false, false)
}

pub open spec fn outcome_of(r: Result<CliAction, CliError>) -> CliOutcome {
    match r {
        Ok(CliAction::Help) => CliOutcome::Help,
        Ok(CliAction::WarmUp) => CliOutcome::WarmUp,
        Ok(CliAction::Run { input, output, silent }) => CliOutcome::Run {
            input: input@,
            output: output@,
            silent,
        },
        Err(CliError::MissingInputValue) => CliOutcome::MissingInputValue,
        Err(CliError::MissingOutputValue) => CliOutcome::MissingOutputValue,
        Err(CliError::UnexpectedArgument(a)) => CliOutcome::UnexpectedArgument(a@),
        Err(CliError::NoInput) => CliOutcome::NoInput,
    }
}

pub open spec fn args_view(args: Seq<String>) -> Seq<Seq<char>> {
    args.map_values(|s: String| s@)
}

fn is(a: &String, lit: &str) -> (r: bool)
    ensures
        r == (a@ == lit@),
{
    let s = String::from_str(lit);
    *a == s
}

/// Reads the arguments that follow the program name.
pub fn parse_args(args: &Vec<String>) -> (r: Result<CliAction, CliError>)
    ensures
        outcome_of(r) == parse_spec(args_view(args@)),
{
    let ghost av = args_view(args@);
    let mut input: Option<String> = None;
    let mut output = String::from_str("compressed_video.mcap");
    let mut silent = false;
    let mut warm_up = false;
    let mut i: usize = 0;
    while i < args.len()
        invariant
            av == args_view(args@),
            av.len() == args@.len(),
            i <= args@.len() + 1,
            parse_spec(av) == parse_from(
                av,
                i as nat,
                match input {
                    Some(p) => Some(p@),
                    None => None,
                },
                output@,
                silent,
                warm_up,
            ),
        decreases args@.len() + 1 - i,
    {
        let a = &args[i];
        assert(av[i as int] == a@);
        if is(a, "--input") || is(a, "-i") {
            if i + 1 < args.len() {
                assert(av[i + 1] == args@[i + 1]@);
                input = Some(args[i + 1].clone());
                i = i + 2;
            } else {
                return Err(CliError::MissingInputValue);
            }
        } else if is(a, "--output") || is(a, "-o") {
            if i + 1 < args.len() {
                assert(av[i + 1] == args@[i + 1]@);
                output = args[i + 1].clone();
                i = i + 2;
            } else {
                return Err(CliError::MissingOutputValue);
            }
        } else if is(a, "--silent") {
            silent = true;
            i = i + 1;
        } else if is(a, "--warm-up") {
            warm_up = true;
            i = i + 1;
        } else if is(a, "--help") || is(a, "-h") {
            return Ok(CliAction::Help);
        } else {
            return Err(CliError::UnexpectedArgument(a.clone()));
        }
    }
    if warm_up {
        return Ok(CliAction::WarmUp);
    }
    match input {
        Some(p) => Ok(CliAction::Run { input: p, output, silent }),
        None => Err(CliError::NoInput),
    }
}

/// The text reported for a refused command line.
pub open spec fn cli_error_text(e: CliOutcome) -> Seq<char> {
    match e {
        CliOutcome::MissingInputValue => "Missing value for --input/-i argument"@,
        CliOutcome::MissingOutputValue => "Missing value for --output/-o argument"@,
        CliOutcome::UnexpectedArgument(a) => "Unexpected argument: "@ + a + ". \n\n "@
            + help_text(),
        CliOutcome::NoInput => "No input file specified. Use --input/-i to specify input file"@,
        _ => Seq::<char>::empty(),
    }
}

impl CliError {
    /// The message reported for this error; an unexpected argument is
    /// followed by the usage text.
    pub fn message(&self) -> (r: String)
        ensures
            r@ == cli_error_text(outcome_of(Err::<CliAction, CliError>(*self))),
    {
        match self {
            CliError::MissingInputValue => String::from_str("Missing value for --input/-i argument"),
            CliError::MissingOutputValue => String::from_str(
                "Missing value for --output/-o argument",
            ),
            CliError::UnexpectedArgument(a) => {
                let mut m = String::from_str("Unexpected argument: ");
                m.append(a.as_str());
                m.append(". \n\n ");
                let help = get_help_msg();
                m.append(help.as_str());
                m
            },
            CliError::NoInput => String::from_str(
                "No input file specified. Use --input/-i to specify input file",
            ),
        }
    }
}

} // verus!
