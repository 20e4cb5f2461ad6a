use vstd::prelude::*;

verus! {

#[verifier::external_type_specification]
#[verifier::external_body]
pub struct ExIoError(std::io::Error);

/// The error type of the tool.
#[derive(Debug)]
pub enum RefreshError {
    /// Error parsing command-line arguments
    CliParse(String),
    /// Error executing the command
    CommandExecution(String),
    /// Error with I/O operations (file, stdin, stdout)
    Io(std::io::Error),
    /// Error with signal handling
    Signal(String),
    /// Error with logging
    Logging(String),
}

/// Result type alias for refresh operations
pub type Result<T> = std::result::Result<T, RefreshError>;

/// Which operation on the log file failed.
pub enum LogStage {
    Open,
    Write,
    Flush,
}

pub open spec fn log_stage_text(stage: LogStage) -> Seq<char> {
    match stage {
        LogStage::Open => "Failed to open log file: "@,
        LogStage::Write => "Failed to write to log file: "@,
        LogStage::Flush => "Failed to flush log file: "@,
    }
}

pub open spec fn signal_setup_text() -> Seq<char> {
    "Failed to set signal handler: "@
}

/// What an error holds, as mathematical values. An I/O error is opaque.
pub enum ErrorModel {
    CliParse(Seq<char>),
    CommandExecution(Seq<char>),
    Io,
    Signal(Seq<char>),
    Logging(Seq<char>),
}

impl View for RefreshError {
    type V = ErrorModel;

    open spec fn view(&self) -> ErrorModel {
        match self {
            RefreshError::CliParse(m) => ErrorModel::CliParse(m@),
            RefreshError::CommandExecution(m) => ErrorModel::CommandExecution(m@),
            RefreshError::Io(_) => ErrorModel::Io,
            RefreshError::Signal(m) => ErrorModel::Signal(m@),
            RefreshError::Logging(m) => ErrorModel::Logging(m@),
        }
    }
}

/// The text that `message` gives for an error, where the error holds its text.
/// For an I/O error it fixes only the prefix.
pub open spec fn message_prefix(e: ErrorModel) -> Seq<char> {
    match e {
        ErrorModel::CliParse(_) => "CLI error: "@,
        ErrorModel::CommandExecution(_) => "Execution error: "@,
        ErrorModel::Io => "I/O error: "@,
        ErrorModel::Signal(_) => "Signal handling error: "@,
        ErrorModel::Logging(_) => "Logging error: "@,
    }
}

pub open spec fn message_body(e: ErrorModel) -> Option<Seq<char>> {
    match e {
        ErrorModel::CliParse(m) => Some(m),
        ErrorModel::CommandExecution(m) => Some(m),
        ErrorModel::Io => None,
        ErrorModel::Signal(m) => Some(m),
        ErrorModel::Logging(m) => Some(m),
    }
}

/// `std::io::Error`'s `Display` text. It comes from the operating system for
/// OS errors, so nothing is stated of it.
#[verifier::external_body]
fn io_error_text(err: &std::io::Error) -> String {
    err.to_string()
}

impl RefreshError {
    /// The human-readable description of the error: a prefix naming the kind
    /// of error, followed by its detail.
    pub fn message(&self) -> (text: String)
        ensures
            text@.len() >= message_prefix(self@).len(),
            text@.subrange(0, message_prefix(self@).len() as int) == message_prefix(self@),
            message_body(self@) matches Some(body) ==> text@ == message_prefix(self@) + body,
    {
        let (prefix, body) = match self {
            RefreshError::CliParse(m) => ("CLI error: ", m.clone()),
            RefreshError::CommandExecution(m) => ("Execution error: ", m.clone()),
            RefreshError::Io(err) => ("I/O error: ", io_error_text(err)),
            RefreshError::Signal(m) => ("Signal handling error: ", m.clone()),
            RefreshError::Logging(m) => ("Logging error: ", m.clone()),
        };
        let mut text = String::from_str(prefix);
        text.append(body.as_str());
        assert(text@.subrange(0, prefix@.len() as int) =~= prefix@);
        text
    }

    /// The underlying I/O error, for the `Io` variant only.
    pub fn source(&self) -> (src: Option<&std::io::Error>)
        ensures
            src is Some <==> self is Io,
            self matches RefreshError::Io(err) ==> src == Some(err),
    {
        match self {
            RefreshError::Io(err) => Some(err),
            _ => None,
        }
    }
}

/// The error for a failed operation on the log file, with the reason given.
pub fn log_failure(stage: LogStage, detail: &str) -> (err: RefreshError)
    ensures
        err@ == ErrorModel::Logging(log_stage_text(stage) + detail@),
{
    let mut text = match stage {
        LogStage::Open => String::from_str("Failed to open log file: "),
        LogStage::Write => String::from_str("Failed to write to log file: "),
        LogStage::Flush => String::from_str("Failed to flush log file: "),
    };
    text.append(detail);
    RefreshError::Logging(text)
}

/// The error for an interrupt handler that could not be installed, with the
/// reason given.
pub fn signal_failure(detail: &str) -> (err: RefreshError)
    ensures
        err@ == ErrorModel::Signal(signal_setup_text() + detail@),
{
    let mut text = String::from_str("Failed to set signal handler: ");
    text.append(detail);
    RefreshError::Signal(text)
}

impl From<std::io::Error> for RefreshError {
    fn from(err: std::io::Error) -> (wrapped: Self) {
        RefreshError::Io(err)
    }
}

impl vstd::std_specs::convert::FromSpecImpl<std::io::Error> for RefreshError {
    open spec fn obeys_from_spec() -> bool {
        true
    }

    open spec fn from_spec(v: std::io::Error) -> Self {
        RefreshError::Io(v)
    }
}

} // verus!
