use vstd::prelude::*;

use crate::cli::words_view;
use crate::errors::{ErrorModel, RefreshError};

verus! {

// ---------------------------------------------------------------------------
// The log file
// ---------------------------------------------------------------------------

/// Where output is logged, and whether only failed runs are logged.
pub struct Logger {
    file_path: String,
    log_errors_only: bool,
}

/// What a logger holds.
pub struct LoggerModel {
    pub file_path: Seq<char>,
    pub log_errors_only: bool,
}

impl View for Logger {
    type V = LoggerModel;

    closed spec fn view(&self) -> LoggerModel {
        LoggerModel { file_path: self.file_path@, log_errors_only: self.log_errors_only }
    }
}

/// Whether a logger records the output of a run: always, unless it logs only
/// errors and the run did not fail.
pub open spec fn logs(logger: LoggerModel, is_error: bool) -> bool {
    !(logger.log_errors_only && !is_error)
}

/// The text appended to the log for one output: the output and a line break.
pub open spec fn log_line(output: Seq<char>) -> Seq<char> {
    output.push('\n')
}

impl Logger {
    /// Create a new logger
    pub fn new(file_path: String, log_errors_only: bool) -> (logger: Self)
        ensures
            logger@ == (LoggerModel { file_path: file_path@, log_errors_only }),
    {
        Logger { file_path, log_errors_only }
    }

    /// The path of the log file.
    pub fn file_path(&self) -> (path: &String)
        ensures
            path@ == self@.file_path,
    {
        &self.file_path
    }

    /// Whether only the output of failed runs is logged.
    pub fn log_errors_only(&self) -> (only: bool)
        ensures
            only == self@.log_errors_only,
    {
        self.log_errors_only
    }

    /// The text to append to the log file for `output`, or `None` where this
    /// output is not logged.
    pub fn log_entry(&self, output: &str, is_error: bool) -> (entry: Option<String>)
        ensures
            entry is Some <==> logs(self@, is_error),
            entry matches Some(text) ==> text@ == log_line(output@),
    {
        if self.log_errors_only && !is_error {
            return None;
        }
        let mut text = String::from_str(output);
        text.append("\n");
        proof {
            reveal_strlit("\n");
            assert(text@ =~= log_line(output@));
        }
        Some(text)
    }
}

// ---------------------------------------------------------------------------
// The command read from standard input
// ---------------------------------------------------------------------------

/// Unicode's `White_Space` property, which `char::is_whitespace` and
/// `str::trim` follow.
pub open spec fn is_white_space(c: char) -> bool {
    ||| '\u{9}' <= c <= '\u{d}'
    ||| c == ' '
    ||| c == '\u{85}'
    ||| c == '\u{a0}'
    ||| c == '\u{1680}'
    ||| '\u{2000}' <= c <= '\u{200a}'
    ||| c == '\u{2028}'
    ||| c == '\u{2029}'
    ||| c == '\u{202f}'
    ||| c == '\u{205f}'
    ||| c == '\u{3000}'
}

/// `s` without its leading white space.
pub open spec fn trim_start(s: Seq<char>) -> Seq<char>
    decreases s.len(),
{
    if s.len() > 0 && is_white_space(s[0]) {
        trim_start(s.drop_first())
    } else {
        s
    }
}

/// `s` without its trailing white space.
pub open spec fn trim_end(s: Seq<char>) -> Seq<char>
    decreases s.len(),
{
    if s.len() > 0 && is_white_space(s.last()) {
        trim_end(s.drop_last())
    } else {
        s
    }
}

/// `s` without leading and trailing white space.
pub open spec fn trimmed(s: Seq<char>) -> Seq<char> {
    trim_end(trim_start(s))
}

fn white_space(c: char) -> (b: bool)
    ensures
        b == is_white_space(c),
{
    ('\u{9}' <= c && c <= '\u{d}') || c == ' ' || c == '\u{85}' || c == '\u{a0}' || c
        == '\u{1680}' || ('\u{2000}' <= c && c <= '\u{200a}') || c == '\u{2028}' || c
        == '\u{2029}' || c == '\u{202f}' || c == '\u{205f}' || c == '\u{3000}'
}

/// The line with leading and trailing white space removed.
pub fn trim_whitespace(line: &str) -> (t: String)
    ensures
        t@ == trimmed(line@),
{
    let n = line.unicode_len();
    let mut start: usize = 0;
    assert(line@.subrange(0, n as int) =~= line@);
    while start < n && white_space(line.get_char(start))
        invariant
            n == line@.len(),
            start <= n,
            trim_start(line@) == trim_start(line@.subrange(start as int, n as int)),
        decreases n - start,
    {
        assert(line@.subrange(start as int, n as int).drop_first() =~= line@.subrange(
            start + 1,
            n as int,
        ));
        start = start + 1;
    }
    assert(trim_start(line@) == line@.subrange(start as int, n as int));
    let mut end: usize = n;
    while end > start && white_space(line.get_char(end - 1))
        invariant
            n == line@.len(),
            start <= end <= n,
            trim_end(line@.subrange(start as int, n as int)) == trim_end(
                line@.subrange(start as int, end as int),
            ),
        decreases end - start,
    {
        assert(line@.subrange(start as int, end as int).drop_last() =~= line@.subrange(
            start as int,
            end - 1,
        ));
        end = end - 1;
    }
    String::from_str(line.substring_char(start, end))
}

#[verifier::external_type_specification]
#[verifier::external_body]
pub struct ExParseError(shell_words::ParseError);

/// What `shell_words::split` gives for a line: the words, or `None` where the
/// line holds an unmatched quote.
pub uninterp spec fn shell_split(line: Seq<char>) -> Option<Seq<Seq<char>>>;

/// Calls `shell_words::split`, which splits a line into words the way a Unix
/// shell does, with quote removal and no expansions. Trusted: the result is
/// named `shell_split` of the line, the words taken by their text.
#[verifier::external_body]
fn split_words(line: &str) -> (res: Result<Vec<String>, shell_words::ParseError>)
    ensures
        match res {
            Ok(words) => shell_split(line@) == Some(words_view(words@)),
            Err(_) => shell_split(line@) is None,
        },
{
    shell_words::split(line)
}

/// The text of `shell_words::ParseError`, which is the one fixed message its
/// `Display` writes.
#[verifier::external_body]
fn parse_error_text(err: &shell_words::ParseError) -> (text: String)
    ensures
        text@ == "missing closing quote"@,
{
    err.to_string()
}

pub open spec fn empty_stdin_text() -> Seq<char> {
    "No command provided via stdin"@
}

pub open spec fn unparsable_stdin_text() -> Seq<char> {
    "Failed to parse command from stdin: missing closing quote"@
}

/// The command that a line read from standard input names, or the error.
pub open spec fn stdin_command(line: Seq<char>) -> Result<Seq<Seq<char>>, ErrorModel> {
    let t = trimmed(line);
    if t.len() == 0 {
        Err(ErrorModel::CliParse(empty_stdin_text()))
    } else {
        match shell_split(t) {
            Some(words) => Ok(words),
            None => Err(ErrorModel::CliParse(unparsable_stdin_text())),
        }
    }
}

pub open spec fn command_outcome(res: Result<Vec<String>, RefreshError>) -> Result<
    Seq<Seq<char>>,
    ErrorModel,
> {
    match res {
        Ok(words) => Ok(words_view(words@)),
        Err(e) => Err(e@),
    }
}

/// Turn what the shell splitter gave into the command, or into the error
/// that reports an unparsable line.
pub fn stdin_command_from_words(split: Result<Vec<String>, shell_words::ParseError>) -> (res:
    Result<Vec<String>, RefreshError>)
    ensures
        split matches Ok(words) ==> res matches Ok(c) && c == words,
        split is Err ==> command_outcome(res) == Err::<Seq<Seq<char>>, ErrorModel>(
            ErrorModel::CliParse(unparsable_stdin_text()),
        ),
{
    match split {
        Ok(words) => Ok(words),
        Err(err) => {
            let mut text = String::from_str("Failed to parse command from stdin: ");
            let detail = parse_error_text(&err);
            text.append(detail.as_str());
            proof {
                reveal_strlit("Failed to parse command from stdin: ");
                reveal_strlit("missing closing quote");
                reveal_strlit("Failed to parse command from stdin: missing closing quote");
                assert(text@ =~= unparsable_stdin_text());
            }
            Err(RefreshError::CliParse(text))
        },
    }
}

/// The command named by a line read from standard input: the line is trimmed,
/// must not be empty, and is split into words as a shell would.
pub fn command_from_stdin_line(line: &str) -> (res: Result<Vec<String>, RefreshError>)
    ensures
        command_outcome(res) == stdin_command(line@),
        trimmed(line@).len() == 0 ==> command_outcome(res) == Err::<Seq<Seq<char>>, ErrorModel>(
            ErrorModel::CliParse(empty_stdin_text()),
        ),
        trimmed(line@).len() > 0 ==> match shell_split(trimmed(line@)) {
            Some(words) => res matches Ok(v) && words_view(v@) == words,
            None => command_outcome(res) == Err::<Seq<Seq<char>>, ErrorModel>(
                ErrorModel::CliParse(unparsable_stdin_text()),
            ),
        },
{
    let t = trim_whitespace(line);
    if t.as_str().is_empty() {
        return Err(RefreshError::CliParse(String::from_str("No command provided via stdin")));
    }
    let split = split_words(t.as_str());
    stdin_command_from_words(split)
}

} // verus!

verus! {

/// Reading a command from standard input refuses exactly the lines that are
/// blank, and lines the shell splitter rejects; every other line gives the
/// words the splitter finds in the trimmed line, however many there are.
pub proof fn lemma_stdin_command(line: Seq<char>)
    ensures
        stdin_command(line) is Err <==> (trimmed(line).len() == 0 || shell_split(trimmed(line))
            is None),
        trimmed(line).len() > 0 ==> (shell_split(trimmed(line)) matches Some(words)
            ==> stdin_command(line) == Ok::<Seq<Seq<char>>, ErrorModel>(words)),
        trimmed(line).len() == 0 ==> stdin_command(line) == Err::<Seq<Seq<char>>, ErrorModel>(
            ErrorModel::CliParse(empty_stdin_text()),
        ),
{
}

/// Trimming drops some leading and some trailing white space and nothing
/// else: the result is a middle part of the line, every character removed is
/// white space, and the result neither starts nor ends with white space.
pub proof fn lemma_trimmed_shape(s: Seq<char>)
    ensures
        exists|i: int, j: int|
            #![trigger s.subrange(i, j)]
            0 <= i <= j <= s.len() && trimmed(s) == s.subrange(i, j) && (forall|k: int|
                0 <= k < i ==> is_white_space(#[trigger] s[k])) && (forall|k: int|
                j <= k < s.len() ==> is_white_space(#[trigger] s[k])),
        trimmed(s).len() > 0 ==> !is_white_space(trimmed(s)[0]) && !is_white_space(
            trimmed(s).last(),
        ),
{
    let i = lemma_trim_start_shape(s);
    let t = trim_start(s);
    let j = lemma_trim_end_shape(t);
    assert(trimmed(s) == s.subrange(i, i + j));
    assert(trimmed(s) =~= s.subrange(i, i + j));
    assert forall|k: int| i + j <= k < s.len() implies is_white_space(#[trigger] s[k]) by {
        assert(s[k] == t[k - i]);
    }
    if trimmed(s).len() > 0 {
        assert(trimmed(s)[0] == t[0]);
    }
}

/// `trim_start(s)` is `s` from some `i` on, with only white space before `i`,
/// and it does not start with white space.
proof fn lemma_trim_start_shape(s: Seq<char>) -> (i: int)
    ensures
        0 <= i <= s.len(),
        trim_start(s) == s.subrange(i, s.len() as int),
        forall|k: int| 0 <= k < i ==> is_white_space(#[trigger] s[k]),
        trim_start(s).len() > 0 ==> !is_white_space(trim_start(s)[0]),
    decreases s.len(),
{
    if s.len() > 0 && is_white_space(s[0]) {
        let i1 = lemma_trim_start_shape(s.drop_first());
        assert(s.drop_first().subrange(i1, s.drop_first().len() as int) =~= s.subrange(
            i1 + 1,
            s.len() as int,
        ));
        assert forall|k: int| 0 <= k < i1 + 1 implies is_white_space(#[trigger] s[k]) by {
            if k > 0 {
                assert(s[k] == s.drop_first()[k - 1]);
            }
        }
        i1 + 1
    } else {
        assert(s.subrange(0, s.len() as int) =~= s);
        0
    }
}

/// `trim_end(s)` is `s` up to some `j`, with only white space from `j` on,
/// and it does not end with white space.
proof fn lemma_trim_end_shape(s: Seq<char>) -> (j: int)
    ensures
        0 <= j <= s.len(),
        trim_end(s) == s.subrange(0, j),
        forall|k: int| j <= k < s.len() ==> is_white_space(#[trigger] s[k]),
        trim_end(s).len() > 0 ==> !is_white_space(trim_end(s).last()),
    decreases s.len(),
{
    if s.len() > 0 && is_white_space(s.last()) {
        let j1 = lemma_trim_end_shape(s.drop_last());
        assert(s.drop_last().subrange(0, j1) =~= s.subrange(0, j1));
        assert forall|k: int| j1 <= k < s.len() implies is_white_space(#[trigger] s[k]) by {
            if k < s.len() - 1 {
                assert(s[k] == s.drop_last()[k]);
            }
        }
        j1
    } else {
        assert(s.subrange(0, s.len() as int) =~= s);
        s.len() as int
    }
}

} // verus!
