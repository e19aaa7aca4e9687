//! Scoped workspaces: copying a template and switching into the copy.

use std::path::Path;

use harness::workspace::{
    change_dir_step, copy_step, copy_then_chdir_outcome, create_step, temp_dir_from_template,
    WorkspaceError,
};

fn relative_entries(base: &Path) -> Vec<String> {
    let content = fs_extra::dir::get_dir_content(base).unwrap();
    let mut entries: Vec<String> = Vec::new();
    for dir in &content.directories {
        let rel = Path::new(dir).strip_prefix(base).unwrap();
        let text = rel.to_str().unwrap();
        if !text.is_empty() {
            entries.push(text.to_owned());
        }
    }
    for file in &content.files {
        let rel = Path::new(file).strip_prefix(base).unwrap();
        entries.push(rel.to_str().unwrap().to_owned());
    }
    entries.sort();
    entries
}

#[test]
fn workspace_copies_template_entries_and_becomes_cwd() {
    let template = tempdir::TempDir::new("template").unwrap();
    fs_extra::dir::create(template.path().join("nested"), false).unwrap();
    fs_extra::file::write_all(&template.path().join("a.txt"), "alpha").unwrap();
    fs_extra::file::write_all(&template.path().join("nested").join("b.txt"), "beta").unwrap();

    let workspace = temp_dir_from_template(template.path()).unwrap();

    let copied = relative_entries(workspace.path());
    let expected = relative_entries(template.path());
    assert_eq!(copied, expected);
    assert_eq!(
        copied,
        vec![
            String::from("a.txt"),
            String::from("nested"),
            String::from("nested/b.txt"),
        ]
    );

    let cwd = nix::unistd::getcwd().unwrap();
    assert_eq!(cwd.as_path(), workspace.path());
}

#[test]
fn missing_template_reports_copy_failure() {
    let result = temp_dir_from_template(Path::new("/nonexistent/template/for/this/test"));
    assert!(matches!(result, Err(WorkspaceError::Copy(_))));
}

#[test]
fn step_classifiers_keep_successes_and_name_failing_steps() {
    assert_eq!(copy_step(Ok(7)), Ok(7));
    assert_eq!(
        copy_step(Err(String::from("oops"))),
        Err(WorkspaceError::Copy(String::from("oops")))
    );
    assert_eq!(change_dir_step(Ok(())), Ok(()));
    assert_eq!(
        change_dir_step(Err(String::from("denied"))),
        Err(WorkspaceError::ChangeDir(String::from("denied")))
    );
    let created = create_step(Ok(tempdir::TempDir::new("classified").unwrap()));
    assert!(created.is_ok());
    assert_eq!(
        create_step(Err(String::from("full"))).err(),
        Some(WorkspaceError::CreateDir(String::from("full")))
    );
}

#[test]
fn sequencing_judgement_names_the_failing_step() {
    let dir = tempdir::TempDir::new("judged").unwrap();
    assert_eq!(
        copy_then_chdir_outcome(dir, Err(String::from("oops")), None).err(),
        Some(WorkspaceError::Copy(String::from("oops")))
    );
    let dir = tempdir::TempDir::new("judged").unwrap();
    assert_eq!(
        copy_then_chdir_outcome(dir, Ok(5), Some(Err(String::from("denied")))).err(),
        Some(WorkspaceError::ChangeDir(String::from("denied")))
    );
    let dir = tempdir::TempDir::new("judged").unwrap();
    let path = dir.path().to_path_buf();
    let outcome = copy_then_chdir_outcome(dir, Ok(5), Some(Ok(())));
    assert_eq!(outcome.unwrap().path(), path.as_path());
}
