//! Supervised children: group teardown, capture through pipes, spawn errors.

use std::sync::{Arc, Mutex};

use harness::capture::{Capture, CaptureBuffer};
use harness::child::{attach_stderr, attach_stdout, classify_spawn, escalation_needed, group_address, poll_ends_wait, SpawnError, TemporaryChild, WaitPoll};
use tokio::process::Command;

fn io_runtime() -> tokio::runtime::Runtime {
    tokio::runtime::Builder::new_current_thread()
        .enable_io()
        .build()
        .unwrap()
}

fn shell(script: &str) -> Command {
    let mut cmd = Command::new("sh");
    cmd.arg("-c");
    cmd.arg(script);
    cmd
}



#[test]
fn group_address_is_negative_pid() {
    assert_eq!(group_address(1234), -1234);
    assert_eq!(group_address(1), -1);
}

#[test]
fn captured_stdout_is_hello_exactly_once() {
    let rt = io_runtime();
    let _guard = rt.enter();
    let (read_end, write_end) = nix::unistd::pipe().unwrap();
    let mut cmd = shell("echo hello");
    cmd.stdout(write_end);
    let supervised = TemporaryChild::spawn(&mut cmd, Capture::none()).unwrap();
    drop(cmd);
    let mut bytes: Vec<u8> = Vec::new();
    let mut chunk = [0u8; 4096];
    loop {
        match nix::unistd::read(&read_end, &mut chunk) {
            Ok(0) => break,
            Ok(n) => bytes.extend_from_slice(&chunk[..n]),
            Err(nix::errno::Errno::EINTR) => continue,
            Err(e) => panic!("reading from pipe failed: {}", e),
        }
    }
    let mut buffer = CaptureBuffer::new();
    buffer.append_chunk(&bytes).unwrap();
    assert_eq!(buffer.current_text(), "hello\n");
    drop(supervised);
}

#[test]
fn interleaved_writes_leave_both_streams_exact() {
    let rt = io_runtime();
    let _guard = rt.enter();
    let (out_read, out_write) = nix::unistd::pipe().unwrap();
    let (err_read, err_write) = nix::unistd::pipe().unwrap();
    let mut cmd = shell("printf a; printf 1 >&2; printf b; printf 2 >&2; printf c");
    cmd.stdout(out_write);
    cmd.stderr(err_write);
    let supervised = TemporaryChild::spawn(&mut cmd, Capture::none()).unwrap();
    drop(cmd);
    let mut out_buffer = CaptureBuffer::new();
    let mut err_buffer = CaptureBuffer::new();
    let mut chunk = [0u8; 4096];
    loop {
        match nix::unistd::read(&out_read, &mut chunk) {
            Ok(0) => break,
            Ok(n) => {
                out_buffer.append_chunk(&chunk[..n]).unwrap();
            }
            Err(nix::errno::Errno::EINTR) => continue,
            Err(e) => panic!("reading stdout pipe failed: {}", e),
        }
    }
    loop {
        match nix::unistd::read(&err_read, &mut chunk) {
            Ok(0) => break,
            Ok(n) => {
                err_buffer.append_chunk(&chunk[..n]).unwrap();
            }
            Err(nix::errno::Errno::EINTR) => continue,
            Err(e) => panic!("reading stderr pipe failed: {}", e),
        }
    }
    assert_eq!(out_buffer.current_text(), "abc");
    assert_eq!(err_buffer.current_text(), "12");
    drop(supervised);
}

#[test]
fn dropping_handle_clears_whole_group_from_process_table() {
    let rt = io_runtime();
    let _guard = rt.enter();
    let mut cmd = shell("trap ':' TERM; sleep 30; true");
    let supervised = TemporaryChild::spawn(&mut cmd, Capture::none()).unwrap();
    nix::unistd::sleep(1);
    let pid = supervised.id().unwrap();
    let target = nix::unistd::Pid::from_raw(group_address(pid));
    assert!(nix::sys::signal::kill(target, None).is_ok());
    drop(supervised);
    let mut gone = false;
    for _ in 0..10 {
        match nix::sys::signal::kill(target, None) {
            Err(nix::errno::Errno::ESRCH) => {
                gone = true;
                break;
            }
            _ => {
                nix::unistd::sleep(1);
            }
        }
    }
    assert!(gone);
}

#[test]
fn teardown_twice_and_drop_are_harmless() {
    let rt = io_runtime();
    let _guard = rt.enter();
    let mut cmd = shell("true");
    let mut supervised = TemporaryChild::spawn(&mut cmd, Capture::none()).unwrap();
    supervised.teardown();
    supervised.teardown();
    drop(supervised);
}

#[test]
fn teardown_after_natural_exit_is_quiet() {
    let rt = io_runtime();
    let _guard = rt.enter();
    let mut cmd = shell("exit 7");
    let supervised = TemporaryChild::spawn(&mut cmd, Capture::none()).unwrap();
    nix::unistd::sleep(1);
    drop(supervised);
}

#[test]
fn capture_request_without_pipe_is_rejected() {
    let rt = io_runtime();
    let _guard = rt.enter();
    let mut cmd = shell("true");
    let capture = Capture {
        stdout: Some(Arc::new(Mutex::new(CaptureBuffer::new()))),
        stderr: None,
    };
    let result = TemporaryChild::spawn(&mut cmd, capture);
    assert!(matches!(result, Err(SpawnError::StdoutNotPiped)));
}

#[test]
fn unlaunchable_command_reports_launch_error() {
    let rt = io_runtime();
    let _guard = rt.enter();
    let mut cmd = Command::new("/nonexistent/binary/for/spawn/test");
    let result = TemporaryChild::spawn(&mut cmd, Capture::none());
    assert!(matches!(result, Err(SpawnError::Launch(_))));
}

#[test]
fn poll_report_ends_wait_except_still_running() {
    assert!(!poll_ends_wait(WaitPoll::StillRunning));
    assert!(poll_ends_wait(WaitPoll::Exited(0)));
    assert!(poll_ends_wait(WaitPoll::Exited(7)));
    assert!(poll_ends_wait(WaitPoll::Signaled));
    assert!(poll_ends_wait(WaitPoll::Failed));
}

#[test]
fn escalation_happens_exactly_when_term_wait_ran_out() {
    assert!(escalation_needed(false));
    assert!(!escalation_needed(true));
}

#[test]
fn classified_spawn_failure_becomes_launch() {
    let result = classify_spawn(Err(String::from("no such file")));
    assert_eq!(
        result.err(),
        Some(SpawnError::Launch(String::from("no such file")))
    );
}

#[test]
fn attaching_without_pipe_end_reports_not_piped() {
    let out_buffer = Arc::new(Mutex::new(CaptureBuffer::new()));
    let err_buffer = Arc::new(Mutex::new(CaptureBuffer::new()));
    assert!(matches!(
        attach_stdout(None, out_buffer),
        Err(SpawnError::StdoutNotPiped)
    ));
    assert!(matches!(
        attach_stderr(None, err_buffer),
        Err(SpawnError::StderrNotPiped)
    ));
}
