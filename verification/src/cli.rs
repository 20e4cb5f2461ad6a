use vstd::prelude::*;

use crate::errors::{ErrorModel, RefreshError};

verus! {

/// The tool's command line: the interval, the command to run and the options.
pub struct Cli {
    /// Interval in seconds between command executions
    pub interval: u64,
    /// Command to execute, program first
    pub command: Vec<String>,
    /// Exit immediately if command returns non-zero exit code
    pub exit_on_error: bool,
    /// Log output to file (appends on each refresh)
    pub log_file: Option<String>,
    /// Log only errors (requires a log file)
    pub log_errors_only: bool,
}

/// The views of a list of strings.
pub open spec fn words_view(words: Seq<String>) -> Seq<Seq<char>> {
    words.map_values(|w: String| w@)
}

/// The words joined, with `sep` between each two neighbours.
pub open spec fn join_with(words: Seq<Seq<char>>, sep: Seq<char>) -> Seq<char>
    decreases words.len(),
{
    if words.len() == 0 {
        Seq::empty()
    } else if words.len() == 1 {
        words[0]
    } else {
        join_with(words.drop_last(), sep) + sep + words.last()
    }
}

pub open spec fn interval_error_text() -> Seq<char> {
    "Interval must be greater than 0"@
}

pub open spec fn missing_command_text() -> Seq<char> {
    "No command provided. Usage: refresh <interval> <command> OR command | refresh <interval>"@
}

/// Where the command to run comes from.
pub enum CommandSource {
    /// The command given on the command line.
    Arguments(Vec<String>),
    /// No command was given: read one line from standard input.
    Stdin,
}

impl Cli {
    /// Validate the parsed arguments: the interval must be positive.
    pub fn validate(&self) -> (res: Result<(), RefreshError>)
        ensures
            res is Ok <==> self.interval > 0,
            res matches Err(e) ==> e@ == ErrorModel::CliParse(interval_error_text()),
    {
        if self.interval == 0 {
            return Err(RefreshError::CliParse(String::from_str("Interval must be greater than 0")));
        }
        Ok(())
    }

    /// The command as a single string, its words separated by single spaces.
    pub fn command_string(&self) -> (s: String)
        ensures
            s@ == join_with(words_view(self.command@), " "@),
    {
        let mut s = String::new();
        let n = self.command.len();
        let ghost words = words_view(self.command@);
        let mut i: usize = 0;
        while i < n
            invariant
                n == self.command@.len(),
                words == words_view(self.command@),
                i <= n,
                s@ == join_with(words.take(i as int), " "@),
            decreases n - i,
        {
            if i > 0 {
                s.append(" ");
            }
            s.append(self.command[i].as_str());
            proof {
                assert(words.take(i + 1).drop_last() =~= words.take(i as int));
                assert(words.take(i + 1).last() == self.command@[i as int]@);
                if i == 0 {
                    assert(s@ =~= join_with(words.take(1), " "@));
                }
            }
            i = i + 1;
        }
        assert(words.take(n as int) =~= words);
        s
    }
}

/// Decide where the command comes from: the command line when it names one;
/// otherwise standard input, unless standard input is a terminal, which is an
/// error.
pub fn command_source(command: Vec<String>, stdin_is_tty: bool) -> (res: Result<
    CommandSource,
    RefreshError,
>)
    ensures
        command.len() > 0 ==> (res matches Ok(CommandSource::Arguments(c)) && c == command),
        command.len() == 0 && !stdin_is_tty ==> res matches Ok(CommandSource::Stdin),
        command.len() == 0 && stdin_is_tty ==> (res matches Err(e) && e@ == ErrorModel::CliParse(
            missing_command_text(),
        )),
{
    if command.len() > 0 {
        Ok(CommandSource::Arguments(command))
    } else if stdin_is_tty {
        Err(
            RefreshError::CliParse(
                String::from_str(
                    "No command provided. Usage: refresh <interval> <command> OR command | refresh <interval>",
                ),
            ),
        )
    } else {
        Ok(CommandSource::Stdin)
    }
}

} // verus!
