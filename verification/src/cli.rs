use vstd::prelude::*;

verus! {

/// How the program presents a file: printed to a terminal, or in a window.
#[derive(Debug, PartialEq, Eq, Structural)]
pub enum ExecutionMode {
    CLI,
    GUI,
}

/// A terminal on standard output selects the text mode; anything else opens
/// the window.
pub fn determine_execution_mode(stdout_is_terminal: bool) -> (mode: ExecutionMode)
    ensures
        (mode == ExecutionMode::CLI) <==> stdout_is_terminal,
        (mode == ExecutionMode::GUI) <==> !stdout_is_terminal,
{
    if stdout_is_terminal {
        ExecutionMode::CLI
    } else {
        ExecutionMode::GUI
    }
}

/// The command line: the path of the file to analyze.
#[derive(Debug)]
pub struct CliArgs {
    pub file_path: String,
}

/// Why the command line gave no arguments to run with.
#[derive(Debug)]
pub enum UsageError {
    /// Help or the version was asked for: the text, with clap's ANSI styling,
    /// goes to standard output and the program ends successfully.
    Info(String),
    /// The command line was refused: the message, with clap's ANSI styling,
    /// goes to standard error and the program ends with a usage failure.
    Refused(String),
}

/// The program's name on the command line.
pub const PROGRAM_NAME: &'static str = "phosphene";

/// The version that `--version` reports.
pub const PROGRAM_VERSION: &'static str = "0.1.0";

/// The name of the one positional argument.
pub const FILE_ARG: &'static str = "file_path";

/// The help line of the positional argument.
pub const FILE_ARG_HELP: &'static str = "Path to the binary file to analyze";

/// How usage and help text show the positional argument's value.
pub const FILE_ARG_VALUE_NAME: &'static str = "FILE_PATH";

/// What clap's parser makes of a command line `args` (program name first) for
/// a command with the given name and version and one required positional
/// argument with the given id, help text and value name: `Ok` with that argument's value,
/// or `Err(to_stderr)` when it stops instead, `to_stderr` telling a refusal from
/// a request for help or the version.
pub uninterp spec fn clap_positional_match(
    name: Seq<char>,
    version: Seq<char>,
    arg_id: Seq<char>,
    help: Seq<char>,
    value_name: Seq<char>,
    args: Seq<Seq<char>>,
) -> Result<Seq<char>, bool>;

/// Calls `clap::Command::try_get_matches_from` on `args` for a command named
/// `name` whose `--version` reports `version`, with one required positional
/// argument `arg_id` described by `help` and shown as `value_name`, and reads
/// the argument back with `ArgMatches::get_one`. On failure it keeps clap's
/// rendered message with its ANSI styling (`StyledStr::ansi`) and whether clap
/// sends it to standard error. Trusted: the outcome is the named
/// result of these values; which lines clap accepts, and the text of its
/// messages, are not stated here.
#[verifier::external_body]
fn clap_match_positional(
    name: &'static str,
    version: &'static str,
    arg_id: &'static str,
    help: &'static str,
    value_name: &'static str,
    args: &Vec<String>,
) -> (matched: Result<String, UsageError>)
    ensures
        ({
            let named = clap_positional_match(
                name@,
                version@,
                arg_id@,
                help@,
                value_name@,
                args.deep_view(),
            );
            match matched {
                Ok(value) => named == Ok::<Seq<char>, bool>(value@),
                Err(UsageError::Refused(_)) => named == Err::<Seq<char>, bool>(true),
                Err(UsageError::Info(_)) => named == Err::<Seq<char>, bool>(false),
            }
        }),
{
    let arg = clap::Arg::new(arg_id).help(help).value_name(value_name).required(true);
    let command = clap::Command::new(name).version(version).arg(arg);
    match command.try_get_matches_from(args) {
        Ok(m) => Ok(m.get_one::<String>(arg_id).cloned().unwrap_or_default()),
        Err(e) if e.use_stderr() => Err(UsageError::Refused(e.render().ansi().to_string())),
        Err(e) => Err(UsageError::Info(e.render().ansi().to_string())),
    }
}

/// What the program's command line yields: the named file's path, or
/// `Err(to_stderr)` when clap stops instead.
pub open spec fn cli_outcome(args: Seq<Seq<char>>) -> Result<Seq<char>, bool> {
    clap_positional_match(
        PROGRAM_NAME@,
        PROGRAM_VERSION@,
        FILE_ARG@,
        FILE_ARG_HELP@,
        FILE_ARG_VALUE_NAME@,
        args,
    )
}

/// Turns the parser's outcome into the program's arguments, keeping a usage
/// error as it is.
pub fn cli_args_from(matched: Result<String, UsageError>) -> (parsed: Result<CliArgs, UsageError>)
    ensures
        match matched {
            Ok(path) => parsed matches Ok(a) && a.file_path == path,
            Err(e) => parsed matches Err(u) && u == e,
        },
{
    match matched {
        Ok(path) => Ok(CliArgs { file_path: path }),
        Err(e) => Err(e),
    }
}

/// Parses the command line `args` (program name first): one required path.
pub fn parse_args(args: Vec<String>) -> (parsed: Result<CliArgs, UsageError>)
    ensures
        match parsed {
            Ok(a) => cli_outcome(args.deep_view()) == Ok::<Seq<char>, bool>(a.file_path@),
            Err(UsageError::Refused(_)) => cli_outcome(args.deep_view()) == Err::<Seq<char>, bool>(true),
            Err(UsageError::Info(_)) => cli_outcome(args.deep_view()) == Err::<Seq<char>, bool>(false),
        },
{
    let matched = clap_match_positional(
        PROGRAM_NAME,
        PROGRAM_VERSION,
        FILE_ARG,
        FILE_ARG_HELP,
        FILE_ARG_VALUE_NAME,
        &args,
    );
    cli_args_from(matched)
}

} // verus!
