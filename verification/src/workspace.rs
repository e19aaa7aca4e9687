//! Scoped workspaces: an ephemeral directory filled from a template, so a
//! test can run destructive file operations without touching shared
//! fixtures.
//!
//! [`temp_dir_from_template`] creates a uniquely named temporary directory,
//! copies the template directory's contents into it (contents only: the
//! template itself does not become a nested subdirectory), and makes it the
//! process-wide current working directory. The returned handle removes the
//! directory when dropped. The working directory is process-wide state and
//! is not restored on drop, so tests that rely on it must not run
//! concurrently within one process.

use vstd::prelude::*;

use std::path::Path;
use tempdir::TempDir;

verus! {

/// An outside type: `std::path::Path`, a borrowed filesystem path.
#[verifier::external_type_specification]
#[verifier::external_body]
pub struct ExPath(Path);

/// An outside type: `tempdir::TempDir`, the handle of a temporary
/// directory that is removed when the handle is dropped.
#[verifier::external_type_specification]
#[verifier::external_body]
pub struct ExTempDir(TempDir);

/// Why a workspace could not be set up; each variant names the step that
/// failed and carries the underlying failure's description.
#[derive(Clone, Debug, PartialEq, Eq)]
pub enum WorkspaceError {
    /// The temporary directory could not be created.
    CreateDir(String),
    /// The template's contents could not be copied into it.
    Copy(String),
    /// The working directory could not be switched to it.
    ChangeDir(String),
}

/// Relies on tempdir::TempDir::new: creates a new uniquely named directory
/// under the system temporary directory, its name starting with the given
/// prefix, and returns the handle that removes it on drop.
#[verifier::external_body]
fn create_temp_dir(prefix: &str) -> (r: Result<TempDir, String>) {
    match TempDir::new(prefix) {
        Ok(dir) => Ok(dir),
        Err(e) => Err(format!("{}", e)),
    }
}

/// Relies on tempdir::TempDir::path: the path of the directory this handle
/// owns.
#[verifier::external_body]
fn temp_dir_path<'a>(dir: &'a TempDir) -> (r: &'a Path) {
    dir.path()
}

/// Relies on fs_extra::dir::copy: copies the directory `from` into `to`,
/// recursively; with `content_only` set, only `from`'s entries are copied
/// into `to`, not `from` itself as a nested subdirectory. Reports the
/// number of bytes copied.
#[verifier::external_body]
fn copy_dir(from: &Path, to: &Path, content_only: bool) -> (r: Result<u64, String>) {
    let mut options = fs_extra::dir::CopyOptions::new();
    options.content_only = content_only;
    match fs_extra::dir::copy(from, to, &options) {
        Ok(bytes) => Ok(bytes),
        Err(e) => Err(format!("{}", e)),
    }
}

/// Relies on nix::unistd::chdir: switches the process-wide current working
/// directory to this path.
#[verifier::external_body]
fn change_working_dir(path: &Path) -> (r: Result<(), String>) {
    match nix::unistd::chdir(path) {
        Ok(()) => Ok(()),
        Err(e) => Err(format!("{}", e)),
    }
}

/// Classifies what the temporary-directory creation reported: a created
/// handle is handed through unchanged, and a failure becomes the
/// `CreateDir` error carrying the OS's text — never a success.
pub fn create_step(result: Result<TempDir, String>) -> (r: Result<TempDir, WorkspaceError>)
    ensures
        result matches Ok(dir) ==> r == Ok::<TempDir, WorkspaceError>(dir),
        result matches Err(text) ==> r == Err::<TempDir, WorkspaceError>(
            WorkspaceError::CreateDir(text),
        ),
{
    match result {
        Ok(dir) => Ok(dir),
        Err(text) => Err(WorkspaceError::CreateDir(text)),
    }
}

/// Classifies what the template copy reported: the copied byte count is
/// handed through unchanged, and a failure becomes the `Copy` error
/// carrying the OS's text — never a success.
pub fn copy_step(result: Result<u64, String>) -> (r: Result<u64, WorkspaceError>)
    ensures
        result matches Ok(bytes) ==> r == Ok::<u64, WorkspaceError>(bytes),
        result matches Err(text) ==> r == Err::<u64, WorkspaceError>(WorkspaceError::Copy(text)),
{
    match result {
        Ok(bytes) => Ok(bytes),
        Err(text) => Err(WorkspaceError::Copy(text)),
    }
}

/// Classifies what the working-directory switch reported: a success is
/// handed through, and a failure becomes the `ChangeDir` error carrying
/// the OS's text — never a success.
pub fn change_dir_step(result: Result<(), String>) -> (r: Result<(), WorkspaceError>)
    ensures
        result matches Ok(unit) ==> r == Ok::<(), WorkspaceError>(unit),
        result matches Err(text) ==> r == Err::<(), WorkspaceError>(
            WorkspaceError::ChangeDir(text),
        ),
{
    match result {
        Ok(()) => Ok(()),
        Err(text) => Err(WorkspaceError::ChangeDir(text)),
    }
}

/// Judges the two steps that follow a successful directory creation: a
/// copy failure yields exactly the `Copy` error, a directory-change
/// failure (attempted only after the copy succeeded, hence the `Option`)
/// yields exactly the `ChangeDir` error, and only when both steps
/// succeeded is the very handle passed in returned as the workspace.
pub fn copy_then_chdir_outcome(
    dir: TempDir,
    copy: Result<u64, String>,
    chdir: Option<Result<(), String>>,
) -> (r: Result<TempDir, WorkspaceError>)
    requires
        chdir is Some <==> copy is Ok,
    ensures
        copy matches Err(text) ==> r == Err::<TempDir, WorkspaceError>(WorkspaceError::Copy(text)),
        chdir matches Some(step) ==> (step matches Err(text) ==> r == Err::<
            TempDir,
            WorkspaceError,
        >(WorkspaceError::ChangeDir(text))),
        chdir matches Some(step) ==> (step is Ok ==> r == Ok::<TempDir, WorkspaceError>(dir)),
{
    match copy_step(copy) {
        Err(e) => Err(e),
        Ok(_) => match chdir {
            Some(step) => match change_dir_step(step) {
                Ok(()) => Ok(dir),
                Err(e) => Err(e),
            },
            None => unreached(),
        },
    }
}

/// Creates a temporary directory filled with a copy of `source_dir`'s
/// contents (contents only, not the template directory itself as a nested
/// folder) and switches the process-wide working directory to it. A
/// failure is always one of the three step errors, each under its own
/// variant with the OS's text, exactly as `create_step` and
/// `copy_then_chdir_outcome` fix it — never a success; the directory
/// change is attempted only after the copy succeeded. A failure after the
/// directory was created leaks that directory, since no handle is
/// returned to remove it.
pub fn temp_dir_from_template(source_dir: &Path) -> (r: Result<TempDir, WorkspaceError>)
    ensures
        r matches Err(e) ==> ((e matches WorkspaceError::CreateDir(_)) || (e
            matches WorkspaceError::Copy(_)) || (e matches WorkspaceError::ChangeDir(_))),
{
    let temp_dir = match create_step(create_temp_dir("test")) {
        Ok(dir) => dir,
        Err(e) => {
            return Err(e);
        },
    };
    let copied = copy_dir(source_dir, temp_dir_path(&temp_dir), true);
    let changed = if copied.is_ok() {
        Some(change_working_dir(temp_dir_path(&temp_dir)))
    } else {
        None
    };
    copy_then_chdir_outcome(temp_dir, copied, changed)
}

} // verus!
