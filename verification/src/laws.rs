use vstd::prelude::*;

use crate::errors::ErrorModel;
use crate::runner::has_shell_syntax;
use crate::runner::{
    accepts, begin_step, execution_failure_text, is_command_line, max_sleep_ms, next, phase_ok,
    run_output, run_succeeded, shell_option, shell_program, wait_ms, ActionModel, ConfigModel,
    EventModel, Phase,
};

verus! {

/// Every step keeps what holds of each phase.
pub proof fn lemma_step_keeps_phase_ok(
    cfg: ConfigModel,
    phase: Phase,
    event: EventModel,
    interrupted: bool,
)
    requires
        phase_ok(cfg, phase),
        accepts(phase, event),
    ensures
        phase_ok(cfg, next(cfg, phase, event, interrupted).0),
{
}

/// The runner stops exactly when it gives a final action, and it exits only
/// with 130, when it saw an interrupt, or with 1, when a run failed, it is
/// set to exit on errors and no interrupt came.
pub proof fn lemma_exit_codes(cfg: ConfigModel, phase: Phase, event: EventModel, interrupted: bool)
    requires
        phase_ok(cfg, phase),
        accepts(phase, event),
    ensures
        (next(cfg, phase, event, interrupted).0 is Stopped) <==> (
        next(cfg, phase, event, interrupted).1 is Finish || next(
            cfg,
            phase,
            event,
            interrupted,
        ).1 is Fail),
        next(cfg, phase, event, interrupted).1 matches ActionModel::Finish(code) ==> (code == 130
            && interrupted) || (code == 1 && !interrupted && cfg.exit_on_error && phase == (Phase::Emitting {
            success: false,
        })),
{
}

/// An interrupt seen where the runner checks for one (before a run, after
/// the output of a run, whether it failed or not, and before each sleep
/// between runs) stops it with exit code 130.
pub proof fn lemma_interrupt_stops(cfg: ConfigModel, phase: Phase)
    requires
        phase_ok(cfg, phase),
        match phase {
            Phase::Ready => true,
            Phase::Sleeping { .. } => true,
            Phase::Emitting { .. } => true,
            _ => false,
        },
    ensures
        next(cfg, phase, EventModel::Proceed, true) == (Phase::Stopped, ActionModel::Finish(130)),
{
}

/// With exit-on-error, a failed run ends the runner with exit code 1 (where
/// no interrupt came, which gives 130).
pub proof fn lemma_exit_on_error(cfg: ConfigModel)
    requires
        cfg.exit_on_error,
    ensures
        next(cfg, Phase::Emitting { success: false }, EventModel::Proceed, false) == (
        Phase::Stopped,
        ActionModel::Finish(1),
        ),
{
}

/// The screen is cleared only when configured to (standard output is a
/// terminal), never after an interrupt, and then before every run.
pub proof fn lemma_clear_only_on_terminal(
    cfg: ConfigModel,
    phase: Phase,
    event: EventModel,
    interrupted: bool,
)
    requires
        phase_ok(cfg, phase),
        accepts(phase, event),
    ensures
        next(cfg, phase, event, interrupted).1 is ClearScreen ==> cfg.should_clear && !interrupted,
        (phase is Ready && !interrupted && cfg.should_clear) ==> next(
            cfg,
            phase,
            event,
            interrupted,
        ) == (Phase::Clearing, ActionModel::ClearScreen),
{
}

/// What is executed is the configured command: its first word as the
/// program and the rest as the arguments, or, for a single word that holds
/// shell syntax, that word as a command line for `sh -c`. Where the screen is
/// cleared, each execution follows a clear.
pub proof fn lemma_runs_configured_command(
    cfg: ConfigModel,
    phase: Phase,
    event: EventModel,
    interrupted: bool,
)
    requires
        phase_ok(cfg, phase),
        accepts(phase, event),
    ensures
        next(cfg, phase, event, interrupted).1 matches ActionModel::Execute { program, args } ==> {
            &&& cfg.command.len() > 0
            &&& is_command_line(cfg.command) ==> program == shell_program() && args == seq![
                shell_option(),
                cfg.command[0],
            ]
            &&& !is_command_line(cfg.command) ==> program == cfg.command[0] && args
                == cfg.command.drop_first()
            &&& (cfg.should_clear ==> phase is Clearing)
            &&& next(cfg, phase, event, interrupted).0 is Executing
        },
        (cfg.command.len() == 0 && phase is Clearing) ==> next(cfg, phase, event, interrupted).1
            == ActionModel::Fail(ErrorModel::CommandExecution("No command provided"@)),
{
}

/// A program that cannot be started is an execution error naming the
/// command's first word, and the runner stops; a command that ran is never
/// one, whatever its exit code.
pub proof fn lemma_start_failure_stops(
    cfg: ConfigModel,
    stdout: Seq<u8>,
    stderr: Seq<u8>,
    exit_code: Option<i32>,
    detail: Seq<char>,
    interrupted: bool,
)
    requires
        phase_ok(cfg, Phase::Executing),
    ensures
        next(cfg, Phase::Executing, EventModel::SpawnFailed(detail), interrupted) == (
        Phase::Stopped,
        ActionModel::Fail(
            ErrorModel::CommandExecution(execution_failure_text(cfg.command[0], detail)),
        ),
        ),
        next(
            cfg,
            Phase::Executing,
            EventModel::Executed { stdout, stderr, exit_code },
            interrupted,
        ).1 is Emit,
{
}

/// A single sleep is never longer than 100 ms (nor empty), so an interrupt
/// is noticed soon.
pub proof fn lemma_sleeps_are_short(
    cfg: ConfigModel,
    phase: Phase,
    event: EventModel,
    interrupted: bool,
)
    requires
        phase_ok(cfg, phase),
        accepts(phase, event),
    ensures
        next(cfg, phase, event, interrupted).1 matches ActionModel::Sleep { millis } ==> 0 < millis
            <= max_sleep_ms(),
{
}

/// The steps the runner takes with no interrupt, each on `Proceed`: the
/// phase reached, the milliseconds of sleep asked for, and whether every one
/// of those steps asked for a sleep.
pub open spec fn quiet_steps(cfg: ConfigModel, phase: Phase, n: nat) -> (Phase, int, bool)
    decreases n,
{
    if n == 0 {
        (phase, 0, true)
    } else {
        let (p1, a1) = next(cfg, phase, EventModel::Proceed, false);
        let (pn, slept, all_sleep) = quiet_steps(cfg, p1, (n - 1) as nat);
        match a1 {
            ActionModel::Sleep { millis } => (pn, slept + millis, all_sleep),
            _ => (pn, slept, false),
        }
    }
}

/// How many sleeps of at most 100 ms cover `ms` milliseconds.
pub open spec fn sleeps_needed(ms: int) -> nat {
    if ms <= 0 {
        0
    } else {
        ((ms + 99) / 100) as nat
    }
}

/// From a sleep under way, the runner sleeps on until exactly the whole wait
/// has passed, then starts the next run.
pub proof fn lemma_sleep_completes_wait(cfg: ConfigModel, elapsed: u128, chunk: u64)
    requires
        phase_ok(cfg, Phase::Sleeping { elapsed_ms: elapsed, chunk_ms: chunk }),
    ensures
        ({
            let rest = wait_ms(cfg) - elapsed - chunk;
            let (p, slept, all_sleep) = quiet_steps(
                cfg,
                Phase::Sleeping { elapsed_ms: elapsed, chunk_ms: chunk },
                sleeps_needed(rest),
            );
            &&& slept == rest
            &&& all_sleep
            &&& next(cfg, p, EventModel::Proceed, false) == begin_step(cfg, false)
        }),
    decreases wait_ms(cfg) - elapsed - chunk,
{
    let phase = Phase::Sleeping { elapsed_ms: elapsed, chunk_ms: chunk };
    let rest = wait_ms(cfg) - elapsed - chunk;
    if rest > 0 {
        let c2: int = if rest < 100 {
            rest
        } else {
            100
        };
        let e2: int = elapsed + chunk;
        assert(e2 <= u128::MAX) by {
            assert(wait_ms(cfg) <= 0xffff_ffff_ffff_ffffu64 * 1000);
        }
        let p1 = Phase::Sleeping { elapsed_ms: e2 as u128, chunk_ms: c2 as u64 };
        assert(next(cfg, phase, EventModel::Proceed, false) == (
        p1,
        ActionModel::Sleep { millis: c2 as nat },
        ));
        lemma_sleep_completes_wait(cfg, e2 as u128, c2 as u64);
        assert(sleeps_needed(rest) == sleeps_needed(rest - c2) + 1);
        assert(quiet_steps(cfg, phase, sleeps_needed(rest)) == ({
            let (pn, slept, all_sleep) = quiet_steps(cfg, p1, sleeps_needed(rest - c2));
            (pn, slept + c2, all_sleep)
        }));
    } else {
        assert(quiet_steps(cfg, phase, 0) == (phase, 0int, true));
    }
}

/// Between two runs, unless it stops on the failed run, the runner waits
/// exactly the configured interval, in sleeps only, and then starts the next
/// run.
pub proof fn lemma_wait_between_runs(cfg: ConfigModel, success: bool)
    requires
        !(cfg.exit_on_error && !success),
    ensures
        ({
            let (p, slept, all_sleep) = quiet_steps(
                cfg,
                Phase::Emitting { success },
                sleeps_needed(wait_ms(cfg)),
            );
            &&& slept == cfg.interval * 1000
            &&& all_sleep
            &&& next(cfg, p, EventModel::Proceed, false) == begin_step(cfg, false)
        }),
{
    let phase = Phase::Emitting { success };
    let w = wait_ms(cfg);
    if w > 0 {
        let c: int = if w < 100 {
            w
        } else {
            100
        };
        let p1 = Phase::Sleeping { elapsed_ms: 0u128, chunk_ms: c as u64 };
        assert(next(cfg, phase, EventModel::Proceed, false) == (
        p1,
        ActionModel::Sleep { millis: c as nat },
        ));
        lemma_sleep_completes_wait(cfg, 0u128, c as u64);
        assert(sleeps_needed(w) == sleeps_needed(w - c) + 1);
        assert(quiet_steps(cfg, phase, sleeps_needed(w)) == ({
            let (pn, slept, all_sleep) = quiet_steps(cfg, p1, sleeps_needed(w - c));
            (pn, slept + c, all_sleep)
        }));
    } else {
        assert(quiet_steps(cfg, phase, 0) == (phase, 0int, true));
    }
}

} // verus!

verus! {

/// The output of a run is its standard output followed by its standard error,
/// each shown as its text where it is valid UTF-8; the run succeeded when its
/// exit code is 0; the output is logged when there is a logger, except that a
/// logger for errors only skips successful runs; the log line is the output
/// and a line break.
pub proof fn lemma_output_and_logging(
    cfg: ConfigModel,
    stdout: Seq<u8>,
    stderr: Seq<u8>,
    exit_code: Option<i32>,
    interrupted: bool,
)
    requires
        phase_ok(cfg, Phase::Executing),
    ensures
        ({
            let (p, a) = next(
                cfg,
                Phase::Executing,
                EventModel::Executed { stdout, stderr, exit_code },
                interrupted,
            );
            let success = run_succeeded(exit_code);
            &&& success <==> exit_code == Some(0i32)
            &&& p == Phase::Emitting { success }
            &&& a matches ActionModel::Emit { output, log } && {
                &&& output == run_output(stdout, stderr)
                &&& (vstd::utf8::valid_utf8(stdout) && vstd::utf8::valid_utf8(stderr)) ==> output
                    == vstd::utf8::decode_utf8(stdout) + vstd::utf8::decode_utf8(stderr)
                &&& cfg.logger is None ==> log is None
                &&& cfg.logger matches Some(l) ==> {
                    &&& (log is Some <==> (!l.log_errors_only || !success))
                    &&& log matches Some((path, text)) ==> path == l.file_path && text
                        == output.push('\n')
                }
            }
        }),
{
}

} // verus!

verus! {

/// The command that runs for a configuration: its first word as the program
/// and the other words as the arguments, or, for a single word holding shell
/// syntax, `sh -c` with that word.
pub open spec fn executes_command(cfg: ConfigModel, action: ActionModel) -> bool {
    action matches ActionModel::Execute { program, args } && if cfg.command.len() == 1
        && has_shell_syntax(cfg.command[0]) {
        program == "sh"@ && args == seq!["-c"@, cfg.command[0]]
    } else {
        program == cfg.command[0] && args == cfg.command.subrange(1, cfg.command.len() as int)
    }
}

/// Every non-empty command is run, whatever its length: the step that starts
/// a run (from `Ready` with no interrupt where the screen is not cleared, or
/// after clearing) executes it. A run fails to start only for an empty
/// command, or where the program cannot be started.
pub proof fn lemma_nonempty_command_runs(
    cfg: ConfigModel,
    phase: Phase,
    event: EventModel,
    interrupted: bool,
)
    requires
        phase_ok(cfg, phase),
        accepts(phase, event),
    ensures
        cfg.command.len() > 0 ==> executes_command(
            cfg,
            next(cfg, Phase::Clearing, EventModel::Proceed, interrupted).1,
        ),
        (cfg.command.len() > 0 && !cfg.should_clear) ==> executes_command(
            cfg,
            next(cfg, Phase::Ready, EventModel::Proceed, false).1,
        ),
        next(cfg, phase, event, interrupted).1 is Fail ==> (cfg.command.len() == 0
            || event is SpawnFailed),
{
    if cfg.command.len() > 0 {
        assert(cfg.command.drop_first() =~= cfg.command.subrange(1, cfg.command.len() as int));
    }
}

/// Which events the runner takes: `Proceed` in every phase but `Executing`
/// and `Stopped`; while executing, the result of the run or a failure to
/// start it; nothing once stopped.
pub proof fn lemma_accepted_events(
    phase: Phase,
    stdout: Seq<u8>,
    stderr: Seq<u8>,
    exit_code: Option<i32>,
    detail: Seq<char>,
)
    ensures
        accepts(phase, EventModel::Proceed) <==> !(phase is Stopped) && !(phase is Executing),
        accepts(phase, EventModel::Executed { stdout, stderr, exit_code }) <==> phase is Executing,
        accepts(phase, EventModel::SpawnFailed(detail)) <==> phase is Executing,
{
}

/// After each action the runner takes the event that reports it: `Proceed`
/// after a clear, an output (of a successful or a failed run) or a sleep; the
/// result of the run, or a failure to start it, after an execution; and
/// nothing after a final action.
pub proof fn lemma_runner_takes_next_event(
    cfg: ConfigModel,
    phase: Phase,
    event: EventModel,
    interrupted: bool,
    stdout: Seq<u8>,
    stderr: Seq<u8>,
    exit_code: Option<i32>,
    detail: Seq<char>,
)
    requires
        phase_ok(cfg, phase),
        accepts(phase, event),
    ensures
        ({
            let (p, a) = next(cfg, phase, event, interrupted);
            &&& (a is ClearScreen || a is Emit || a is Sleep) ==> accepts(p, EventModel::Proceed)
            &&& a is Execute ==> accepts(p, EventModel::Executed { stdout, stderr, exit_code })
                && accepts(p, EventModel::SpawnFailed(detail)) && !accepts(
                p,
                EventModel::Proceed,
            )
            &&& (a is Finish || a is Fail) ==> !accepts(p, EventModel::Proceed) && !accepts(
                p,
                EventModel::Executed { stdout, stderr, exit_code },
            ) && !accepts(p, EventModel::SpawnFailed(detail))
        }),
{
}

} // verus!
