//! Supervised child processes.
//!
//! [`TemporaryChild::spawn`] launches a command as the leader of a brand-new
//! process group, so that the whole group — the child and any descendants it
//! forks into it — can later be signalled as one unit without reaching the
//! test runner or its siblings. When the handle is dropped (or
//! [`TemporaryChild::teardown`] is called), the group receives a termination
//! signal and the child is polled, non-blocking, until the kernel reports it
//! gone from the process table. The teardown runs exactly once, is
//! best-effort (signal and wait failures are absorbed, since they usually
//! mean the process already exited), and runs whether the owning scope ends
//! normally, by early return, or by a propagating failure.

use vstd::prelude::*;

use std::sync::Arc;
use std::sync::Mutex;
use tokio::process::Child;
use tokio::process::ChildStderr;
use tokio::process::ChildStdout;
use tokio::process::Command;

use crate::capture::Capture;
use crate::capture::CaptureBuffer;

verus! {

/// An outside type: `tokio::process::Command`, the description of a command
/// to run (executable, arguments, environment, working directory).
#[verifier::external_type_specification]
#[verifier::external_body]
pub struct ExCommand(Command);

/// An outside type: `tokio::process::Child`, the handle of a spawned child
/// process.
#[verifier::external_type_specification]
#[verifier::external_body]
pub struct ExChild(Child);

/// An outside type: `tokio::process::ChildStdout`, the read end of the pipe
/// behind a child's redirected standard-output.
#[verifier::external_type_specification]
#[verifier::external_body]
pub struct ExChildStdout(ChildStdout);

/// An outside type: `tokio::process::ChildStderr`, the read end of the pipe
/// behind a child's redirected standard-error.
#[verifier::external_type_specification]
#[verifier::external_body]
pub struct ExChildStderr(ChildStderr);

/// Why a supervised spawn failed.
#[derive(Clone, Debug, PartialEq, Eq)]
pub enum SpawnError {
    /// The operating system could not spawn the command; the text describes
    /// the failure.
    Launch(String),
    /// Standard-output capture was requested but the command's
    /// standard-output was not redirected to a pipe before spawning.
    StdoutNotPiped,
    /// Standard-error capture was requested but the command's
    /// standard-error was not redirected to a pipe before spawning.
    StderrNotPiped,
}

/// What one non-blocking wait poll reported of the child.
#[derive(Clone, Copy, Debug, PartialEq, Eq, Structural)]
pub enum WaitPoll {
    /// The child exited normally with this code and left the process table.
    Exited(i32),
    /// The child was terminated by a signal and left the process table.
    Signaled,
    /// The child is still in the process table.
    StillRunning,
    /// The poll itself failed; waiting further is pointless.
    Failed,
}

/// Relies on tokio::process::Command::process_group: arranges for the child
/// to be placed in the process group with this id at spawn, before it
/// executes; group 0 means a new group whose id is the child's own pid,
/// making the child that group's leader.
#[verifier::external_body]
fn set_process_group(cmd: &mut Command, group: i32) {
    cmd.process_group(group);
}

/// Relies on tokio::process::Command::spawn: starts the command as a child
/// process and returns its handle, or the reason it could not be started.
/// Must be called from within a tokio runtime context: the child and its
/// pipes are registered with the runtime's reactor, and tokio panics when
/// there is none. The library's callers establish that context.
#[verifier::external_body]
fn spawn_child(cmd: &mut Command) -> (r: Result<Child, String>) {
    match cmd.spawn() {
        Ok(child) => Ok(child),
        Err(e) => Err(format!("{}", e)),
    }
}

/// Relies on tokio::process::Child::id: the OS-assigned process id of the
/// child, and `None` once the handle itself has polled the child to
/// completion (a wait done behind the handle's back does not change what
/// it returns); on POSIX a pid is positive and fits the signed 32-bit pid
/// type.
#[verifier::external_body]
fn child_id(child: &Child) -> (r: Option<u32>)
    ensures
        r matches Some(pid) ==> 1 <= pid <= 0x7fff_ffff,
    opens_invariants none
    no_unwind
{
    child.id()
}

/// Relies on tokio::process::Child's public `stdout` field: the read end of
/// the standard-output pipe, present only when the command was spawned with
/// standard-output redirected to a pipe; taking it leaves `None` behind.
#[verifier::external_body]
fn take_child_stdout(child: &mut Child) -> (r: Option<ChildStdout>) {
    child.stdout.take()
}

/// Relies on tokio::process::Child's public `stderr` field: the read end of
/// the standard-error pipe, present only when the command was spawned with
/// standard-error redirected to a pipe; taking it leaves `None` behind.
#[verifier::external_body]
fn take_child_stderr(child: &mut Child) -> (r: Option<ChildStderr>) {
    child.stderr.take()
}

/// Relies on nix::sys::signal::kill: sends SIGTERM to the process addressed
/// by `target` — with a negative target, to every process of the group
/// whose id is `-target`. Reports whether delivery succeeded; it fails
/// (without panicking) when the target no longer exists.
#[verifier::external_body]
fn send_terminate(target: i32) -> (r: bool)
    opens_invariants none
    no_unwind
{
    match nix::sys::signal::kill(nix::unistd::Pid::from_raw(target), nix::sys::signal::Signal::SIGTERM) {
        Ok(()) => true,
        Err(_) => false,
    }
}

/// Relies on nix::sys::signal::kill: sends SIGKILL to the process addressed
/// by `target` — with a negative target, to every process of the group
/// whose id is `-target`. Reports whether delivery succeeded; it fails
/// (without panicking) when the target no longer exists.
#[verifier::external_body]
fn send_kill(target: i32) -> (r: bool)
    opens_invariants none
    no_unwind
{
    match nix::sys::signal::kill(nix::unistd::Pid::from_raw(target), nix::sys::signal::Signal::SIGKILL) {
        Ok(()) => true,
        Err(_) => false,
    }
}

/// Relies on nix::poll::poll with no file descriptors of interest: does
/// nothing but wait for the given number of milliseconds (or less, if a
/// signal interrupts the wait).
#[verifier::external_body]
fn wait_one_millisecond()
    opens_invariants none
    no_unwind
{
    let mut interests: [nix::poll::PollFd; 0] = [];
    let _ = nix::poll::poll(&mut interests, 1u8);
}

/// Relies on nix::sys::wait::waitpid with WNOHANG: polls the child without
/// blocking, reaping it and reporting `Exited` or `Signaled` once it has
/// left the process table, `StillRunning` while it has not (or reports a
/// state change other than exit), and `Failed` when the wait itself fails
/// (for instance because the child was already reaped elsewhere).
#[verifier::external_body]
fn poll_child(child_pid: i32) -> (r: WaitPoll)
    opens_invariants none
    no_unwind
{
    let pid = nix::unistd::Pid::from_raw(child_pid);
    match nix::sys::wait::waitpid(pid, Some(nix::sys::wait::WaitPidFlag::WNOHANG)) {
        Ok(nix::sys::wait::WaitStatus::Exited(_, code)) => WaitPoll::Exited(code),
        Ok(nix::sys::wait::WaitStatus::Signaled(_, _, _)) => WaitPoll::Signaled,
        Ok(_) => WaitPoll::StillRunning,
        Err(_) => WaitPoll::Failed,
    }
}

/// The signal address of a child's whole process group: the negative of its
/// pid, which is its group's id since the child was spawned as the leader
/// of a new group.
pub fn group_address(child_pid: u32) -> (r: i32)
    requires
        1 <= child_pid <= 0x7fff_ffff,
    ensures
        r == -(child_pid as int),
    opens_invariants none
    no_unwind
{
    -(child_pid as i32)
}

/// How many one-millisecond poll rounds teardown grants the group after
/// each signal before it moves on.
const TEARDOWN_POLL_ROUNDS: u32 = 5000;

/// Whether one poll's report ends the teardown wait: it does exactly when
/// the report is anything but "still running" — the child left the process
/// table (exited normally or via a signal), or the poll itself failed, in
/// which case waiting further is pointless (best-effort: a failed wait
/// usually means the child was already reaped).
pub fn poll_ends_wait(report: WaitPoll) -> (r: bool)
    ensures
        r <==> !(report is StillRunning),
    opens_invariants none
    no_unwind
{
    match report {
        WaitPoll::StillRunning => false,
        WaitPoll::Exited(_) => true,
        WaitPoll::Signaled => true,
        WaitPoll::Failed => true,
    }
}

/// Whether teardown escalates to SIGKILL: it does exactly when the bounded
/// wait granted after SIGTERM ran out without the child leaving the
/// process table.
pub fn escalation_needed(term_wait_ended: bool) -> (r: bool)
    ensures
        r <==> !term_wait_ended,
    opens_invariants none
    no_unwind
{
    !term_wait_ended
}

/// Polls the child, non-blocking, about once a millisecond, until one
/// poll's report ends the wait (see `poll_ends_wait`) or the given number
/// of rounds runs out. Reports whether the wait came to an end before the
/// rounds ran out — which one poll must have reported, so never with no
/// rounds granted; the rest of the result depends on what the polls
/// reported.
fn wait_until_gone(child_pid: i32, rounds: u32) -> (r: bool)
    ensures
        rounds == 0 ==> r == false,
        r ==> rounds > 0,
    opens_invariants none
    no_unwind
{
    let mut remaining: u32 = rounds;
    while remaining > 0
        invariant
            remaining <= rounds,
        decreases remaining,
    {
        let report = poll_child(child_pid);
        if poll_ends_wait(report) {
            return true;
        }
        remaining = remaining - 1;
        wait_one_millisecond();
    }
    false
}

/// A child process, spawned as the leader of its own new process group,
/// that runs until this handle is dropped: dropping it (or calling
/// `teardown`) sends the whole group a termination signal and waits for the
/// child to leave the process table.
pub struct TemporaryChild {
    child: Child,
    torn_down: bool,
    pending_stdout: Option<(ChildStdout, Arc<Mutex<CaptureBuffer>>)>,
    pending_stderr: Option<(ChildStderr, Arc<Mutex<CaptureBuffer>>)>,
}

/// Pairs a just-taken standard-output pipe end with the very buffer the
/// caller supplied for that stream, or reports the stream unpiped: the
/// pairing succeeds exactly when the pipe end is there, and hands both
/// through unchanged.
pub fn attach_stdout(
    stream: Option<ChildStdout>,
    buffer: Arc<Mutex<CaptureBuffer>>,
) -> (r: Result<(ChildStdout, Arc<Mutex<CaptureBuffer>>), SpawnError>)
    ensures
        stream matches Some(s) ==> r == Ok::<(ChildStdout, Arc<Mutex<CaptureBuffer>>), SpawnError>(
            (s, buffer),
        ),
        stream is None ==> r == Err::<(ChildStdout, Arc<Mutex<CaptureBuffer>>), SpawnError>(
            SpawnError::StdoutNotPiped,
        ),
{
    match stream {
        Some(s) => Ok((s, buffer)),
        None => Err(SpawnError::StdoutNotPiped),
    }
}

/// Pairs a just-taken standard-error pipe end with the very buffer the
/// caller supplied for that stream, or reports the stream unpiped: the
/// pairing succeeds exactly when the pipe end is there, and hands both
/// through unchanged.
pub fn attach_stderr(
    stream: Option<ChildStderr>,
    buffer: Arc<Mutex<CaptureBuffer>>,
) -> (r: Result<(ChildStderr, Arc<Mutex<CaptureBuffer>>), SpawnError>)
    ensures
        stream matches Some(s) ==> r == Ok::<(ChildStderr, Arc<Mutex<CaptureBuffer>>), SpawnError>(
            (s, buffer),
        ),
        stream is None ==> r == Err::<(ChildStderr, Arc<Mutex<CaptureBuffer>>), SpawnError>(
            SpawnError::StderrNotPiped,
        ),
{
    match stream {
        Some(s) => Ok((s, buffer)),
        None => Err(SpawnError::StderrNotPiped),
    }
}

/// Classifies what the operating system's spawn reported: a fresh child
/// handle is handed through unchanged, and a spawn failure becomes the
/// `Launch` error carrying the OS's text — never a success.
pub fn classify_spawn(result: Result<Child, String>) -> (r: Result<Child, SpawnError>)
    ensures
        result matches Ok(c) ==> r == Ok::<Child, SpawnError>(c),
        result matches Err(t) ==> r == Err::<Child, SpawnError>(SpawnError::Launch(t)),
{
    match result {
        Ok(child) => Ok(child),
        Err(text) => Err(SpawnError::Launch(text)),
    }
}

impl TemporaryChild {
    /// Whether the termination sequence has already run for this handle.
    pub closed spec fn is_torn_down(&self) -> bool {
        self.torn_down
    }

    /// The standard-output reader work still to be attached: the pipe end
    /// taken at spawn, paired with the very buffer the spawn's `capture`
    /// supplied for that stream.
    pub closed spec fn pending_stdout_pair(&self) -> Option<(ChildStdout, Arc<Mutex<CaptureBuffer>>)> {
        self.pending_stdout
    }

    /// The standard-error reader work still to be attached.
    pub closed spec fn pending_stderr_pair(&self) -> Option<(ChildStderr, Arc<Mutex<CaptureBuffer>>)> {
        self.pending_stderr
    }

    /// Whether a standard-output reader still has to be attached.
    pub open spec fn has_pending_stdout(&self) -> bool {
        self.pending_stdout_pair() is Some
    }

    /// Whether a standard-error reader still has to be attached.
    pub open spec fn has_pending_stderr(&self) -> bool {
        self.pending_stderr_pair() is Some
    }

    /// Spawns the command as the leader of a brand-new process group and
    /// pairs each capture buffer with its stream's pipe end, to be handed
    /// to a reader: the pair holds the very buffer that `capture` supplied
    /// for that stream. For each stream named in `capture`, the command
    /// must already have that stream redirected to a pipe; if it does not,
    /// the freshly spawned child is torn down again and the spawn fails.
    /// A command the operating system cannot spawn fails as `Launch` (see
    /// `classify_spawn`).
    pub fn spawn(cmd: &mut Command, capture: Capture) -> (r: Result<TemporaryChild, SpawnError>)
        ensures
            r matches Ok(c) ==> !c.is_torn_down(),
            r matches Ok(c) ==> (c.has_pending_stdout() <==> capture.stdout is Some),
            r matches Ok(c) ==> (c.has_pending_stderr() <==> capture.stderr is Some),
            r matches Ok(c) ==> (capture.stdout matches Some(b) ==> (c.pending_stdout_pair()
                matches Some(p) && p.1 == b)),
            r matches Ok(c) ==> (capture.stderr matches Some(b) ==> (c.pending_stderr_pair()
                matches Some(p) && p.1 == b)),
            r matches Err(e) && e == SpawnError::StdoutNotPiped ==> capture.stdout is Some,
            r matches Err(e) && e == SpawnError::StderrNotPiped ==> capture.stderr is Some,
    {
        set_process_group(cmd, 0);
        let child = match classify_spawn(spawn_child(cmd)) {
            Ok(child) => child,
            Err(e) => {
                return Err(e);
            },
        };
        let mut supervised = TemporaryChild {
            child,
            torn_down: false,
            pending_stdout: None,
            pending_stderr: None,
        };
        let Capture { stdout, stderr } = capture;
        if let Some(buffer) = stdout {
            let stream = take_child_stdout(&mut supervised.child);
            match attach_stdout(stream, buffer) {
                Ok(pair) => {
                    supervised.pending_stdout = Some(pair);
                },
                Err(e) => {
                    supervised.teardown();
                    return Err(e);
                },
            }
        }
        if let Some(buffer) = stderr {
            let stream = take_child_stderr(&mut supervised.child);
            match attach_stderr(stream, buffer) {
                Ok(pair) => {
                    supervised.pending_stderr = Some(pair);
                },
                Err(e) => {
                    supervised.teardown();
                    return Err(e);
                },
            }
        }
        Ok(supervised)
    }

    /// The OS-assigned process id of the child; `None` once the underlying
    /// handle has itself polled the child to completion (the wait that
    /// teardown does behind the handle's back does not change this).
    pub fn id(&self) -> (r: Option<u32>)
        ensures
            r matches Some(pid) ==> 1 <= pid <= 0x7fff_ffff,
    {
        child_id(&self.child)
    }

    /// Hands out the standard-output pipe end and its capture buffer, for
    /// the caller to attach to a reader; present at most once, right after
    /// a spawn that requested standard-output capture.
    pub fn take_stdout_work(&mut self) -> (r: Option<(ChildStdout, Arc<Mutex<CaptureBuffer>>)>)
        ensures
            r == old(self).pending_stdout_pair(),
            !final(self).has_pending_stdout(),
            final(self).is_torn_down() == old(self).is_torn_down(),
            final(self).pending_stderr_pair() == old(self).pending_stderr_pair(),
    {
        self.pending_stdout.take()
    }

    /// Hands out the standard-error pipe end and its capture buffer, for
    /// the caller to attach to a reader; present at most once, right after
    /// a spawn that requested standard-error capture.
    pub fn take_stderr_work(&mut self) -> (r: Option<(ChildStderr, Arc<Mutex<CaptureBuffer>>)>)
        ensures
            r == old(self).pending_stderr_pair(),
            !final(self).has_pending_stderr(),
            final(self).is_torn_down() == old(self).is_torn_down(),
            final(self).pending_stdout_pair() == old(self).pending_stdout_pair(),
    {
        self.pending_stderr.take()
    }

    /// Tears the child down: sends SIGTERM to its whole process group
    /// (addressed by the negative of its pid) and polls, non-blocking,
    /// until the kernel reports the child gone from the process table. So
    /// that teardown can never hang on a child that ignores SIGTERM, the
    /// wait is bounded: a group still alive after the granted rounds is
    /// sent SIGKILL and granted one more bounded wait, after which
    /// teardown gives up. Best-effort throughout: a child with no
    /// retrievable pid was already reaped and is left alone, and signal or
    /// wait failures are absorbed. Runs at most once per handle: on an
    /// already-torn-down handle this does nothing, touching no process.
    pub fn teardown(&mut self)
        ensures
            final(self).is_torn_down(),
            old(self).is_torn_down() ==> *final(self) == *old(self),
        opens_invariants none
        no_unwind
    {
        if self.torn_down {
            return;
        }
        self.torn_down = true;
        match child_id(&self.child) {
            None => {},
            Some(pid) => {
                let target = group_address(pid);
                let _delivered = send_terminate(target);
                let term_wait_ended = wait_until_gone(pid as i32, TEARDOWN_POLL_ROUNDS);
                if escalation_needed(term_wait_ended) {
                    let _killed = send_kill(target);
                    let _ = wait_until_gone(pid as i32, TEARDOWN_POLL_ROUNDS);
                }
            },
        }
    }
}

impl Drop for TemporaryChild {
    /// Scope exit triggers the group teardown, exactly once, whether the
    /// scope ends normally, by early return, or by a propagating failure.
    fn drop(&mut self)
        opens_invariants none
        no_unwind
    {
        self.teardown();
    }
}

} // verus!
