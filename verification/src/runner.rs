use vstd::prelude::*;

use crate::cli::words_view;
use crate::errors::{ErrorModel, RefreshError};
use crate::io::{log_line, logs, Logger, LoggerModel};

verus! {

// ---------------------------------------------------------------------------
// Configuration
// ---------------------------------------------------------------------------

/// Configuration for the command runner
pub struct RunnerConfig {
    pub command: Vec<String>,
    pub interval: u64,
    pub exit_on_error: bool,
    pub logger: Option<Logger>,
    pub should_clear: bool,
}

/// What a configuration holds, as mathematical values.
pub struct ConfigModel {
    pub command: Seq<Seq<char>>,
    pub interval: u64,
    pub exit_on_error: bool,
    pub logger: Option<LoggerModel>,
    pub should_clear: bool,
}

impl View for RunnerConfig {
    type V = ConfigModel;

    open spec fn view(&self) -> ConfigModel {
        ConfigModel {
            command: words_view(self.command@),
            interval: self.interval,
            exit_on_error: self.exit_on_error,
            logger: match self.logger {
                Some(l) => Some(l@),
                None => None,
            },
            should_clear: self.should_clear,
        }
    }
}

/// Calls `std::io::IsTerminal::is_terminal` on `std::io::stdout()`. Whether
/// standard output is a terminal depends on how the process was started, so
/// nothing is stated of the result.
#[verifier::external_body]
fn stdout_is_terminal() -> bool {
    std::io::IsTerminal::is_terminal(&std::io::stdout())
}

impl RunnerConfig {
    /// Create a new runner configuration. The screen is cleared between runs
    /// exactly when standard output is a terminal.
    pub fn new(command: Vec<String>, interval: u64, exit_on_error: bool, logger: Option<Logger>) -> (config: Self)
        ensures
            config.command == command,
            config.interval == interval,
            config.exit_on_error == exit_on_error,
            config.logger == logger,
    {
        RunnerConfig { command, interval, exit_on_error, logger, should_clear: stdout_is_terminal() }
    }
}

// ---------------------------------------------------------------------------
// Output of one run
// ---------------------------------------------------------------------------

/// What `String::from_utf8_lossy` gives for some bytes: their UTF-8 text with
/// each invalid sequence replaced by U+FFFD.
pub uninterp spec fn utf8_lossy(bytes: Seq<u8>) -> Seq<char>;

/// Calls `String::from_utf8_lossy`. Trusted: the result is named `utf8_lossy`
/// of the bytes, and is their decoding where the bytes are valid UTF-8, as
/// the documentation says.
#[verifier::external_body]
fn decode_lossy(bytes: &[u8]) -> (text: String)
    ensures
        text@ == utf8_lossy(bytes@),
        vstd::utf8::valid_utf8(bytes@) ==> text@ == vstd::utf8::decode_utf8(bytes@),
{
    String::from_utf8_lossy(bytes).into_owned()
}

/// The text of some bytes as shown: their UTF-8 decoding where they are valid
/// UTF-8, and otherwise their lossy decoding.
pub open spec fn shown_text(bytes: Seq<u8>) -> Seq<char> {
    if vstd::utf8::valid_utf8(bytes) {
        vstd::utf8::decode_utf8(bytes)
    } else {
        utf8_lossy(bytes)
    }
}

/// The text shown for one run: standard output followed by standard error.
pub open spec fn run_output(stdout: Seq<u8>, stderr: Seq<u8>) -> Seq<char> {
    shown_text(stdout) + shown_text(stderr)
}

/// The output of a run: standard output, then standard error when there is any.
pub fn combined_output(stdout: &[u8], stderr: &[u8]) -> (output: String)
    ensures
        output@ == run_output(stdout@, stderr@),
        vstd::utf8::valid_utf8(stdout@) && vstd::utf8::valid_utf8(stderr@) ==> output@
            == vstd::utf8::decode_utf8(stdout@) + vstd::utf8::decode_utf8(stderr@),
{
    let out = decode_lossy(stdout);
    let err = decode_lossy(stderr);
    if err.as_str().is_empty() {
        assert(out@ + err@ =~= out@);
        out
    } else {
        out.concat(err.as_str())
    }
}

// ---------------------------------------------------------------------------
// The runner's states, events and actions
// ---------------------------------------------------------------------------

/// Where the runner stands in its cycle.
#[derive(Clone, Copy)]
pub enum Phase {
    /// About to start a run: check for an interrupt, clear, execute.
    Ready,
    /// The screen is being cleared before the command runs.
    Clearing,
    /// The command is running.
    Executing,
    /// The output of a run is being printed and logged.
    Emitting { success: bool },
    /// Waiting between runs: `elapsed_ms` already waited, and a sleep of
    /// `chunk_ms` under way.
    Sleeping { elapsed_ms: u128, chunk_ms: u64 },
    /// Finished or failed; the runner takes no more events.
    Stopped,
}

/// What the caller reports after carrying out an action.
pub enum Event {
    /// The screen was cleared, the output emitted, or the sleep done (and,
    /// for the first step, nothing happened yet).
    Proceed,
    /// The command ran, with these outputs and this exit code (`None` where
    /// it was ended by a signal).
    Executed { stdout: Vec<u8>, stderr: Vec<u8>, exit_code: Option<i32> },
    /// The program could not be started; the text says why.
    SpawnFailed(String),
}

pub enum EventModel {
    Proceed,
    Executed { stdout: Seq<u8>, stderr: Seq<u8>, exit_code: Option<i32> },
    SpawnFailed(Seq<char>),
}

impl View for Event {
    type V = EventModel;

    open spec fn view(&self) -> EventModel {
        match self {
            Event::Proceed => EventModel::Proceed,
            Event::Executed { stdout, stderr, exit_code } => EventModel::Executed {
                stdout: stdout@,
                stderr: stderr@,
                exit_code: *exit_code,
            },
            Event::SpawnFailed(detail) => EventModel::SpawnFailed(detail@),
        }
    }
}

/// Text to append to a log file.
pub struct LogEntry {
    pub path: String,
    pub text: String,
}

/// What the caller is to do next.
pub enum Action {
    /// Clear the terminal screen.
    ClearScreen,
    /// Run `program` with `args`, capturing both outputs.
    Execute { program: String, args: Vec<String> },
    /// Print `output` to standard output, then append `log` where given.
    Emit { output: String, log: Option<LogEntry> },
    /// Sleep for `millis` milliseconds.
    Sleep { millis: u64 },
    /// Exit with this code.
    Finish(i32),
    /// Stop with this error.
    Fail(RefreshError),
}

pub enum ActionModel {
    ClearScreen,
    Execute { program: Seq<char>, args: Seq<Seq<char>> },
    Emit { output: Seq<char>, log: Option<(Seq<char>, Seq<char>)> },
    Sleep { millis: nat },
    Finish(int),
    Fail(ErrorModel),
}

impl View for Action {
    type V = ActionModel;

    open spec fn view(&self) -> ActionModel {
        match self {
            Action::ClearScreen => ActionModel::ClearScreen,
            Action::Execute { program, args } => ActionModel::Execute {
                program: program@,
                args: words_view(args@),
            },
            Action::Emit { output, log } => ActionModel::Emit {
                output: output@,
                log: match log {
                    Some(entry) => Some((entry.path@, entry.text@)),
                    None => None,
                },
            },
            Action::Sleep { millis } => ActionModel::Sleep { millis: *millis as nat },
            Action::Finish(code) => ActionModel::Finish(*code as int),
            Action::Fail(e) => ActionModel::Fail(e@),
        }
    }
}

// ---------------------------------------------------------------------------
// The transition function
// ---------------------------------------------------------------------------

/// The exit code when interrupted (SIGINT).
pub open spec fn interrupted_code() -> int {
    130
}

/// The exit code when a run failed and the runner stops on errors.
pub open spec fn failed_run_code() -> int {
    1
}

/// The longest single sleep, so that an interrupt is noticed quickly.
pub open spec fn max_sleep_ms() -> int {
    100
}

/// How long to wait between two runs, in milliseconds.
pub open spec fn wait_ms(cfg: ConfigModel) -> int {
    cfg.interval * 1000
}

/// The system shell, which runs a command given as one command line.
pub open spec fn shell_program() -> Seq<char> {
    "sh"@
}

/// The option that makes the shell run its next argument as a command line.
pub open spec fn shell_option() -> Seq<char> {
    "-c"@
}

/// The characters that give a word a meaning for the shell: blanks,
/// operators, quotes, expansions, patterns and comments.
pub open spec fn is_shell_syntax(c: char) -> bool {
    ||| c == ' ' || c == '\t' || c == '\n'
    ||| c == '|' || c == '&' || c == ';' || c == '<' || c == '>' || c == '(' || c == ')'
    ||| c == '$' || c == '`' || c == '\\' || c == '"' || c == '\''
    ||| c == '*' || c == '?' || c == '[' || c == '#' || c == '~'
}

/// Whether a word holds shell syntax, so that it is a command line
/// (`refresh 2 "df -h | tail -1"`) rather than a program's name.
pub open spec fn has_shell_syntax(word: Seq<char>) -> bool {
    exists|i: int| 0 <= i < word.len() && #[trigger] is_shell_syntax(word[i])
}

/// Whether the command is one command line for the shell: a single word
/// holding shell syntax.
pub open spec fn is_command_line(command: Seq<Seq<char>>) -> bool {
    command.len() == 1 && has_shell_syntax(command[0])
}

/// Whether a run succeeded: its exit code is 0.
pub open spec fn run_succeeded(exit_code: Option<i32>) -> bool {
    exit_code == Some(0i32)
}

pub open spec fn no_command_text() -> Seq<char> {
    "No command provided"@
}

pub open spec fn execution_failure_text(program: Seq<char>, detail: Seq<char>) -> Seq<char> {
    "Failed to execute '"@ + program + "': "@ + detail
}

/// Run the command: a command line through the shell, `sh -c`; otherwise
/// its first word as the program and the rest as its arguments. Fail where
/// there is no command.
pub open spec fn launch_step(cfg: ConfigModel) -> (Phase, ActionModel) {
    if cfg.command.len() == 0 {
        (Phase::Stopped, ActionModel::Fail(ErrorModel::CommandExecution(no_command_text())))
    } else if is_command_line(cfg.command) {
        (
            Phase::Executing,
            ActionModel::Execute {
                program: shell_program(),
                args: seq![shell_option(), cfg.command[0]],
            },
        )
    } else {
        (
            Phase::Executing,
            ActionModel::Execute { program: cfg.command[0], args: cfg.command.drop_first() },
        )
    }
}

/// The start of a run: stop if interrupted, else clear the screen when
/// configured to, else run the command.
pub open spec fn begin_step(cfg: ConfigModel, interrupted: bool) -> (Phase, ActionModel) {
    if interrupted {
        (Phase::Stopped, ActionModel::Finish(interrupted_code()))
    } else if cfg.should_clear {
        (Phase::Clearing, ActionModel::ClearScreen)
    } else {
        launch_step(cfg)
    }
}

/// Having waited `elapsed` milliseconds: sleep on (unless interrupted) while
/// the wait is not over, else begin the next run.
pub open spec fn wait_step(cfg: ConfigModel, elapsed: int, interrupted: bool) -> (
    Phase,
    ActionModel,
) {
    if elapsed < wait_ms(cfg) {
        if interrupted {
            (Phase::Stopped, ActionModel::Finish(interrupted_code()))
        } else {
            let chunk = if wait_ms(cfg) - elapsed < max_sleep_ms() {
                wait_ms(cfg) - elapsed
            } else {
                max_sleep_ms()
            };
            (
                Phase::Sleeping { elapsed_ms: elapsed as u128, chunk_ms: chunk as u64 },
                ActionModel::Sleep { millis: chunk as nat },
            )
        }
    } else {
        begin_step(cfg, interrupted)
    }
}

/// What is appended to the log for an output, if anything.
pub open spec fn log_request(logger: Option<LoggerModel>, output: Seq<char>, is_error: bool) -> Option<
    (Seq<char>, Seq<char>),
> {
    match logger {
        Some(l) => if logs(l, is_error) {
            Some((l.file_path, log_line(output)))
        } else {
            None
        },
        None => None,
    }
}

/// Which events the runner takes in each phase.
pub open spec fn accepts(phase: Phase, event: EventModel) -> bool {
    match phase {
        Phase::Stopped => false,
        Phase::Executing => !(event is Proceed),
        _ => event is Proceed,
    }
}

/// The runner's transition: from a phase, on an event, with the interrupt
/// flag as just read, to the next phase and the action to carry out.
pub open spec fn next(cfg: ConfigModel, phase: Phase, event: EventModel, interrupted: bool) -> (
    Phase,
    ActionModel,
) {
    match phase {
        Phase::Ready => begin_step(cfg, interrupted),
        Phase::Clearing => launch_step(cfg),
        Phase::Executing => match event {
            EventModel::Executed { stdout, stderr, exit_code } => {
                let output = run_output(stdout, stderr);
                let success = run_succeeded(exit_code);
                (
                    Phase::Emitting { success },
                    ActionModel::Emit { output, log: log_request(cfg.logger, output, !success) },
                )
            },
            EventModel::SpawnFailed(detail) => (
                Phase::Stopped,
                ActionModel::Fail(
                    ErrorModel::CommandExecution(execution_failure_text(cfg.command[0], detail)),
                ),
            ),
            // not accepted
            EventModel::Proceed => (phase, ActionModel::ClearScreen),
        },
        Phase::Emitting { success } => if interrupted {
            (Phase::Stopped, ActionModel::Finish(interrupted_code()))
        } else if cfg.exit_on_error && !success {
            (Phase::Stopped, ActionModel::Finish(failed_run_code()))
        } else {
            wait_step(cfg, 0, false)
        },
        Phase::Sleeping { elapsed_ms, chunk_ms } => wait_step(
            cfg,
            elapsed_ms + chunk_ms,
            interrupted,
        ),
        // not accepted
        Phase::Stopped => (phase, ActionModel::Finish(0)),
    }
}

/// What holds of each phase: a running command exists, and a sleep under way
/// is short and ends within the wait.
pub open spec fn phase_ok(cfg: ConfigModel, phase: Phase) -> bool {
    match phase {
        Phase::Executing => cfg.command.len() > 0,
        Phase::Sleeping { elapsed_ms, chunk_ms } => 0 < chunk_ms <= max_sleep_ms()
            && elapsed_ms + chunk_ms <= wait_ms(cfg),
        _ => true,
    }
}

// ---------------------------------------------------------------------------
// The runner
// ---------------------------------------------------------------------------

/// The decisions of the refresh loop. The caller carries out each action and
/// reports back with an event.
pub struct Runner {
    config: RunnerConfig,
    phase: Phase,
}

pub struct RunnerModel {
    pub config: ConfigModel,
    pub phase: Phase,
}

impl View for Runner {
    type V = RunnerModel;

    closed spec fn view(&self) -> RunnerModel {
        RunnerModel { config: self.config@, phase: self.phase }
    }
}

fn clone_words(words: &Vec<String>, from: usize) -> (out: Vec<String>)
    requires
        from <= words.len(),
    ensures
        words_view(out@) == words_view(words@).subrange(from as int, words.len() as int),
{
    let mut out: Vec<String> = Vec::new();
    let mut i = from;
    while i < words.len()
        invariant
            from <= i <= words.len(),
            words_view(out@) == words_view(words@).subrange(from as int, i as int),
        decreases words.len() - i,
    {
        let ghost prev = out@;
        out.push(words[i].clone());
        assert(out@ == prev.push(words@[i as int]));
        assert(words_view(out@) =~= words_view(prev).push(words@[i as int]@));
        assert(words_view(out@) =~= words_view(words@).subrange(from as int, i + 1));
        i = i + 1;
    }
    out
}

fn shell_syntax(c: char) -> (b: bool)
    ensures
        b == is_shell_syntax(c),
{
    c == ' ' || c == '\t' || c == '\n' || c == '|' || c == '&' || c == ';' || c == '<' || c
        == '>' || c == '(' || c == ')' || c == '$' || c == '`' || c == '\\' || c == '"' || c
        == '\'' || c == '*' || c == '?' || c == '[' || c == '#' || c == '~'
}

/// Whether a word holds shell syntax.
fn holds_shell_syntax(word: &str) -> (b: bool)
    ensures
        b == has_shell_syntax(word@),
{
    let n = word.unicode_len();
    let mut i: usize = 0;
    while i < n
        invariant
            n == word@.len(),
            i <= n,
            forall|j: int| 0 <= j < i ==> !is_shell_syntax(#[trigger] word@[j]),
        decreases n - i,
    {
        if shell_syntax(word.get_char(i)) {
            assert(is_shell_syntax(word@[i as int]));
            return true;
        }
        i = i + 1;
    }
    false
}

fn launch(config: &RunnerConfig) -> (r: (Phase, Action))
    ensures
        r.0 == launch_step(config@).0,
        r.1@ == launch_step(config@).1,
{
    if config.command.len() == 0 {
        let text = String::from_str("No command provided");
        (Phase::Stopped, Action::Fail(RefreshError::CommandExecution(text)))
    } else if config.command.len() == 1 && holds_shell_syntax(config.command[0].as_str()) {
        let mut args: Vec<String> = Vec::new();
        args.push(String::from_str("-c"));
        args.push(config.command[0].clone());
        assert(words_view(args@) =~= seq![shell_option(), config@.command[0]]);
        (Phase::Executing, Action::Execute { program: String::from_str("sh"), args })
    } else {
        let program = config.command[0].clone();
        let args = clone_words(&config.command, 1);
        assert(words_view(config.command@).subrange(1, config.command@.len() as int)
            =~= words_view(config.command@).drop_first());
        (Phase::Executing, Action::Execute { program, args })
    }
}

fn begin(config: &RunnerConfig, interrupted: bool) -> (r: (Phase, Action))
    ensures
        r.0 == begin_step(config@, interrupted).0,
        r.1@ == begin_step(config@, interrupted).1,
{
    if interrupted {
        (Phase::Stopped, Action::Finish(130))
    } else if config.should_clear {
        (Phase::Clearing, Action::ClearScreen)
    } else {
        launch(config)
    }
}

fn wait(config: &RunnerConfig, elapsed: u128, interrupted: bool) -> (r: (Phase, Action))
    requires
        elapsed <= wait_ms(config@),
    ensures
        r.0 == wait_step(config@, elapsed as int, interrupted).0,
        r.1@ == wait_step(config@, elapsed as int, interrupted).1,
{
    let total: u128 = (config.interval as u128) * 1000;
    if elapsed < total {
        if interrupted {
            (Phase::Stopped, Action::Finish(130))
        } else {
            let chunk: u64 = if total - elapsed < 100 {
                (total - elapsed) as u64
            } else {
                100
            };
            (Phase::Sleeping { elapsed_ms: elapsed, chunk_ms: chunk }, Action::Sleep { millis: chunk })
        }
    } else {
        begin(config, interrupted)
    }
}

fn emit(config: &RunnerConfig, stdout: &Vec<u8>, stderr: &Vec<u8>, success: bool) -> (r: Action)
    ensures
        r@ == (ActionModel::Emit {
            output: run_output(stdout@, stderr@),
            log: log_request(config@.logger, run_output(stdout@, stderr@), !success),
        }),
{
    let output = combined_output(stdout.as_slice(), stderr.as_slice());
    let log = match &config.logger {
        Some(logger) => match logger.log_entry(output.as_str(), !success) {
            Some(text) => Some(LogEntry { path: logger.file_path().clone(), text }),
            None => None,
        },
        None => None,
    };
    Action::Emit { output, log }
}

fn execution_failure(config: &RunnerConfig, detail: &str) -> (r: Action)
    requires
        config.command.len() > 0,
    ensures
        r@ == ActionModel::Fail(
            ErrorModel::CommandExecution(
                execution_failure_text(config@.command[0], detail@),
            ),
        ),
{
    let mut text = String::from_str("Failed to execute '");
    text.append(config.command[0].as_str());
    text.append("': ");
    text.append(detail);
    Action::Fail(RefreshError::CommandExecution(text))
}

fn executed(config: &RunnerConfig, stdout: &Vec<u8>, stderr: &Vec<u8>, exit_code: Option<i32>) -> (r: (Phase, Action))
    requires
        config.command.len() > 0,
    ensures
        r.0 == next(config@, Phase::Executing, EventModel::Executed { stdout: stdout@, stderr: stderr@, exit_code }, false).0,
        r.1@ == next(config@, Phase::Executing, EventModel::Executed { stdout: stdout@, stderr: stderr@, exit_code }, false).1,
{
    let success = match exit_code {
        Some(0) => true,
        _ => false,
    };
    (Phase::Emitting { success }, emit(config, stdout, stderr, success))
}

impl Runner {
    #[verifier::type_invariant]
    spec fn well_formed(self) -> bool {
        phase_ok(self.config@, self.phase)
    }

    /// A runner about to start its first run.
    pub fn new(config: RunnerConfig) -> (runner: Self)
        ensures
            runner@ == (RunnerModel { config: config@, phase: Phase::Ready }),
    {
        Runner { config, phase: Phase::Ready }
    }

    /// Whether the runner takes this event now.
    pub fn accepts(&self, event: &Event) -> (ok: bool)
        ensures
            ok == accepts(self@.phase, event@),
    {
        match self.phase {
            Phase::Stopped => false,
            Phase::Executing => !matches!(event, Event::Proceed),
            _ => matches!(event, Event::Proceed),
        }
    }

    /// Take one event, with the interrupt flag as just read, and give the
    /// next action.
    pub fn step(&mut self, event: Event, interrupted: bool) -> (action: Action)
        requires
            accepts(old(self)@.phase, event@),
        ensures
            final(self)@.config == old(self)@.config,
            final(self)@.phase == next(old(self)@.config, old(self)@.phase, event@, interrupted).0,
            action@ == next(old(self)@.config, old(self)@.phase, event@, interrupted).1,
            phase_ok(final(self)@.config, final(self)@.phase),
            // the output of a run that wrote valid UTF-8 is that text
            ({
                &&& old(self)@.phase is Executing
                &&& event@ matches EventModel::Executed { stdout, stderr, exit_code }
                &&& vstd::utf8::valid_utf8(stdout)
                &&& vstd::utf8::valid_utf8(stderr)
            }) ==> (action@ matches ActionModel::Emit { output, .. } && output
                == vstd::utf8::decode_utf8(event@->stdout) + vstd::utf8::decode_utf8(
                event@->stderr,
            )),
    {
        proof {
            use_type_invariant(&*self);
        }
        let (phase, action) = match self.phase {
            Phase::Ready => begin(&self.config, interrupted),
            Phase::Clearing => launch(&self.config),
            Phase::Executing => match &event {
                Event::Executed { stdout, stderr, exit_code } => executed(
                    &self.config,
                    stdout,
                    stderr,
                    *exit_code,
                ),
                Event::SpawnFailed(detail) => (
                    Phase::Stopped,
                    execution_failure(&self.config, detail.as_str()),
                ),
                // not taken while executing (see `accepts`)
                Event::Proceed => (self.phase, Action::ClearScreen),
            },
            Phase::Emitting { success } => if interrupted {
                (Phase::Stopped, Action::Finish(130))
            } else if self.config.exit_on_error && !success {
                (Phase::Stopped, Action::Finish(1))
            } else {
                wait(&self.config, 0, false)
            },
            Phase::Sleeping { elapsed_ms, chunk_ms } => wait(
                &self.config,
                elapsed_ms + (chunk_ms as u128),
                interrupted,
            ),
            // a stopped runner takes no events (see `accepts`)
            Phase::Stopped => (Phase::Stopped, Action::Finish(0)),
        };
        self.phase = phase;
        action
    }
}

} // verus!
