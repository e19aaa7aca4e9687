//! Command outcomes and the two outcome assertions.
//!
//! A finished command is reduced to a [`CommandOutcome`]: either a numeric
//! exit code or termination by a signal. The assertions
//! [`run_successful_command`] and [`run_failed_command`] run a command to
//! completion and judge that outcome; the judgement itself is the verified
//! pair [`evaluate_success`] / [`evaluate_failure`], which the assertions
//! apply to whatever outcome the operating system reported.

use vstd::prelude::*;

use tokio::process::Command;

verus! {

/// How a finished command left the process table: with a numeric exit code,
/// or terminated by a signal (in which case no code is available).
#[derive(Clone, Copy, Debug, PartialEq, Eq, Structural)]
pub enum CommandOutcome {
    Exited(i32),
    Signaled,
}

/// Why a command assertion failed.
#[derive(Clone, Debug, PartialEq, Eq)]
pub enum CommandError {
    /// The command was expected to succeed but exited with this non-zero code.
    NonZeroExit(i32),
    /// The command was expected to succeed but was terminated by a signal.
    SignalTermination,
    /// The command was expected to fail but exited with code 0.
    UnexpectedSuccess,
    /// The command could not be run at all; the text describes the failure.
    Launch(String),
}

/// The verdict of `evaluate_success` on an outcome: success exactly for exit
/// code 0; a non-zero code and signal termination are reported as such.
pub open spec fn success_verdict(outcome: CommandOutcome) -> Result<(), CommandError> {
    match outcome {
        CommandOutcome::Exited(code) => if code == 0 {
            Ok(())
        } else {
            Err(CommandError::NonZeroExit(code))
        },
        CommandOutcome::Signaled => Err(CommandError::SignalTermination),
    }
}

/// The verdict of `evaluate_failure` on an outcome: exit code 0 is an
/// unexpected success; any non-zero code or signal termination is the
/// expected failure.
pub open spec fn failure_verdict(outcome: CommandOutcome) -> Result<(), CommandError> {
    match outcome {
        CommandOutcome::Exited(code) => if code == 0 {
            Err(CommandError::UnexpectedSuccess)
        } else {
            Ok(())
        },
        CommandOutcome::Signaled => Ok(()),
    }
}

/// The two outcome assertions are exact and complementary: an outcome
/// passes the success judgement exactly when the command exited with code
/// 0, and passes the failure judgement exactly when it did not.
pub proof fn lemma_verdicts_complementary(outcome: CommandOutcome)
    ensures
        success_verdict(outcome) is Ok <==> outcome == CommandOutcome::Exited(0),
        failure_verdict(outcome) is Ok <==> success_verdict(outcome) is Err,
{
}

/// Judges an outcome that was expected to be a success: `Ok` exactly when
/// the command exited with code 0, otherwise the error naming the non-zero
/// code or the signal termination.
pub fn evaluate_success(outcome: CommandOutcome) -> (r: Result<(), CommandError>)
    ensures
        r == success_verdict(outcome),
{
    match outcome {
        CommandOutcome::Exited(code) => if code == 0 {
            Ok(())
        } else {
            Err(CommandError::NonZeroExit(code))
        },
        CommandOutcome::Signaled => Err(CommandError::SignalTermination),
    }
}

/// Judges an outcome that was expected to be a failure: `Ok` for any
/// non-zero exit code and for signal termination, and an error exactly when
/// the command exited with code 0.
pub fn evaluate_failure(outcome: CommandOutcome) -> (r: Result<(), CommandError>)
    ensures
        r == failure_verdict(outcome),
{
    match outcome {
        CommandOutcome::Exited(code) => if code == 0 {
            Err(CommandError::UnexpectedSuccess)
        } else {
            Ok(())
        },
        CommandOutcome::Signaled => Ok(()),
    }
}

/// Relies on tokio::process::Command::status, run to completion on a
/// runtime built here: spawns the command, waits for it to exit, and
/// reports its exit status; the status carries a code exactly when the
/// process exited normally, and no code when a signal terminated it.
/// Must not be called from within an asynchronous runtime.
#[verifier::external_body]
fn command_status(cmd: &mut Command) -> (r: Result<CommandOutcome, String>) {
    let rt = match tokio::runtime::Builder::new_current_thread().enable_io().build() {
        Ok(rt) => rt,
        Err(e) => return Err(format!("{}", e)),
    };
    let status_future = {
        let _entered = rt.enter();
        cmd.status()
    };
    match rt.block_on(status_future) {
        Ok(status) => match status.code() {
            Some(code) => Ok(CommandOutcome::Exited(code)),
            None => Ok(CommandOutcome::Signaled),
        },
        Err(e) => Err(format!("{}", e)),
    }
}

/// Judges a full run report under the success expectation: an outcome is
/// judged by `success_verdict` exactly, and a command that could not be
/// run at all yields the `Launch` error carrying the report's text —
/// never a success.
pub fn judge_success_report(report: Result<CommandOutcome, String>) -> (r: Result<
    (),
    CommandError,
>)
    ensures
        report matches Ok(outcome) ==> r == success_verdict(outcome),
        report matches Err(text) ==> r == Err::<(), CommandError>(CommandError::Launch(text)),
{
    match report {
        Ok(outcome) => evaluate_success(outcome),
        Err(text) => Err(CommandError::Launch(text)),
    }
}

/// Judges a full run report under the failure expectation: an outcome is
/// judged by `failure_verdict` exactly, and a command that could not be
/// run at all yields the `Launch` error carrying the report's text — a
/// setup failure, never the success produced by a runnable command that
/// fails.
pub fn judge_failure_report(report: Result<CommandOutcome, String>) -> (r: Result<
    (),
    CommandError,
>)
    ensures
        report matches Ok(outcome) ==> r == failure_verdict(outcome),
        report matches Err(text) ==> r == Err::<(), CommandError>(CommandError::Launch(text)),
{
    match report {
        Ok(outcome) => evaluate_failure(outcome),
        Err(text) => Err(CommandError::Launch(text)),
    }
}

/// Runs the command to completion and succeeds only if it exited with code
/// 0. A non-zero code or a signal termination is reported in the error,
/// and a command that could not be run at all as `Launch`: whatever the
/// run reported is judged by `judge_success_report` exactly.
/// Synchronous: must not be called from within an asynchronous runtime.
pub fn run_successful_command(cmd: &mut Command) -> (r: Result<(), CommandError>)
    ensures
        !(r matches Err(CommandError::UnexpectedSuccess)),
        r matches Err(CommandError::NonZeroExit(code)) ==> code != 0,
{
    judge_success_report(command_status(cmd))
}

/// Runs the command to completion and succeeds only if it did not exit with
/// code 0: any non-zero code or signal termination counts as the expected
/// failure, and a command that could not be run at all fails as `Launch`:
/// whatever the run reported is judged by `judge_failure_report` exactly.
/// Synchronous: must not be called from within an asynchronous runtime.
pub fn run_failed_command(cmd: &mut Command) -> (r: Result<(), CommandError>)
    ensures
        !(r matches Err(CommandError::NonZeroExit(_))),
        !(r matches Err(CommandError::SignalTermination)),
{
    judge_failure_report(command_status(cmd))
}

} // verus!
