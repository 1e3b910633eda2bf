use location_macros::resolve::find_directory;
use location_macros::{
    crate_dir, locate, resolve, workspace_dir, ExternalQuery, LocateError, LocationKind,
    ProcessOutcome,
};

fn answered(stdout: &[u8]) -> ProcessOutcome {
    ProcessOutcome::Exited { success: true, stdout: stdout.to_vec(), stderr: Vec::new() }
}

fn failed(stderr: &[u8]) -> ProcessOutcome {
    ProcessOutcome::Exited { success: false, stdout: Vec::new(), stderr: stderr.to_vec() }
}

fn not_run(error: &str) -> ProcessOutcome {
    ProcessOutcome::NotRun { error: error.to_string() }
}

#[test]
fn crate_directory_is_the_parent_of_the_manifest() {
    assert_eq!(
        resolve(LocationKind::CrateDir, None, answered(b"/work/space/member/Cargo.toml\n")),
        Ok("/work/space/member".to_string())
    );
    assert_eq!(
        crate_dir(None, answered(b"/work/space/member/Cargo.toml\n")),
        Ok("/work/space/member".to_string())
    );
}

#[test]
fn workspace_directory_is_the_parent_of_the_workspace_manifest() {
    assert_eq!(
        resolve(LocationKind::WorkspaceDir, None, answered(b"/work/space/Cargo.toml\n")),
        Ok("/work/space".to_string())
    );
    assert_eq!(
        workspace_dir(None, answered(b"/work/space/Cargo.toml\n")),
        Ok("/work/space".to_string())
    );
}

#[test]
fn crate_outside_a_workspace_has_one_root() {
    let answer = b"/home/user/single/Cargo.toml\n";
    assert_eq!(
        resolve(LocationKind::CrateDir, None, answered(answer)),
        resolve(LocationKind::WorkspaceDir, None, answered(answer))
    );
    assert_eq!(crate_dir(None, answered(answer)), workspace_dir(None, answered(answer)));
}

#[test]
fn resolving_again_gives_the_same_directory() {
    let first = resolve(LocationKind::CrateDir, None, answered(b"/a/b/Cargo.toml\n"));
    let second = resolve(LocationKind::CrateDir, None, answered(b"/a/b/Cargo.toml\n"));
    assert_eq!(first, second);
    assert_eq!(first, Ok("/a/b".to_string()));
}

#[test]
fn successful_answer_ignores_program_and_standard_error() {
    let noisy = ProcessOutcome::Exited {
        success: true,
        stdout: b"/a/b/Cargo.toml\n".to_vec(),
        stderr: b"warning: something\n".to_vec(),
    };
    assert_eq!(
        resolve(LocationKind::WorkspaceDir, Some("other".to_string()), noisy),
        Ok("/a/b".to_string())
    );
}

#[test]
fn trailing_newline_is_not_in_the_directory() {
    let dir = resolve(LocationKind::CrateDir, None, answered(b"/a/b/Cargo.toml\n")).unwrap();
    assert_eq!(dir, "/a/b");
    assert!(!dir.contains('\n'));
    let dir = resolve(LocationKind::CrateDir, None, answered(b"/a/b/Cargo.toml\r\n")).unwrap();
    assert_eq!(dir, "/a/b");
    assert!(!dir.contains('\r'));
    let dir = resolve(LocationKind::CrateDir, None, answered(b"/a/b/Cargo.toml")).unwrap();
    assert_eq!(dir, "/a/b");
}

#[test]
fn line_break_inside_a_directory_name_stays() {
    assert_eq!(
        resolve(LocationKind::CrateDir, None, answered(b"/a\n/b/Cargo.toml\n")),
        Ok("/a\n/b".to_string())
    );
}

#[test]
fn missing_tool_gives_an_execution_error() {
    let resolved =
        resolve(LocationKind::CrateDir, None, not_run("No such file or directory (os error 2)"));
    assert_eq!(
        resolved,
        Err(LocateError::ExecutionError {
            command: ExternalQuery {
                program: "cargo".to_string(),
                args: vec![
                    "locate-project".to_string(),
                    "--message-format".to_string(),
                    "plain".to_string()
                ],
            },
            error: "No such file or directory (os error 2)".to_string(),
        })
    );
    let message = resolved.unwrap_err().message();
    assert!(message.contains("cargo"));
    assert!(message.contains("\"cargo\" \"locate-project\""));
}

#[test]
fn missing_tool_gives_a_diagnostic_with_the_program() {
    assert_eq!(
        locate(
            LocationKind::WorkspaceDir,
            None,
            not_run("No such file or directory (os error 2)")
        ),
        Err("failed to locate workspace directory (failed to execute cargo (command: \"cargo\" \
             \"locate-project\" \"--message-format\" \"plain\" \"--workspace\", error: No such file \
             or directory (os error 2)))"
            .to_string())
    );
}

#[test]
fn named_tool_that_is_missing_is_the_one_reported() {
    let fake = "/nonexistent/fake-cargo";
    let resolved = resolve(
        LocationKind::CrateDir,
        Some(fake.to_string()),
        not_run("No such file or directory (os error 2)"),
    );
    match &resolved {
        Err(LocateError::ExecutionError { command, .. }) => assert_eq!(command.program, fake),
        other => panic!("unexpected {:?}", other),
    }
    assert!(resolved.unwrap_err().message().contains(fake));
    let line = locate(
        LocationKind::CrateDir,
        Some(fake.to_string()),
        not_run("No such file or directory (os error 2)"),
    )
    .unwrap_err();
    assert_eq!(
        line,
        "failed to locate crate directory (failed to execute cargo (command: \
         \"/nonexistent/fake-cargo\" \"locate-project\" \"--message-format\" \"plain\", error: No \
         such file or directory (os error 2)))"
    );
}

#[test]
fn failing_tool_gives_a_cargo_error_with_its_standard_error() {
    let stderr = "error: could not find `Cargo.toml` in `/tmp` or any parent directory\n";
    let resolved = resolve(LocationKind::CrateDir, None, failed(stderr.as_bytes()));
    assert_eq!(
        resolved,
        Err(LocateError::CargoError {
            command: ExternalQuery::new(LocationKind::CrateDir, None),
            error: stderr.to_string(),
        })
    );
    assert!(resolved.unwrap_err().message().contains(stderr));
    let line = crate_dir(None, failed(stderr.as_bytes())).unwrap_err();
    assert_eq!(
        line,
        "failed to locate crate directory (cargo exited with non-zero status (command: \"cargo\" \
         \"locate-project\" \"--message-format\" \"plain\", error: error: could not find \
         `Cargo.toml` in `/tmp` or any parent directory\n))"
    );
}

#[test]
fn failing_tool_is_an_error_whatever_it_printed() {
    let outcome = ProcessOutcome::Exited {
        success: false,
        stdout: b"/a/b/Cargo.toml\n".to_vec(),
        stderr: b"late failure".to_vec(),
    };
    assert_eq!(
        resolve(LocationKind::CrateDir, None, outcome),
        Err(LocateError::CargoError {
            command: ExternalQuery::new(LocationKind::CrateDir, None),
            error: "late failure".to_string(),
        })
    );
}

#[test]
fn standard_error_that_is_no_text_is_decoded_lossily() {
    let resolved = resolve(LocationKind::CrateDir, None, failed(b"bad \xff byte\xc3"));
    match resolved {
        Err(LocateError::CargoError { error, .. }) => {
            assert_eq!(error, "bad \u{fffd} byte\u{fffd}")
        }
        other => panic!("unexpected {:?}", other),
    }
}

#[test]
fn directory_that_is_no_text_gives_an_invalid_path() {
    let answer = b"/tmp/\xff\xfe/Cargo.toml\n";
    assert_eq!(
        resolve(LocationKind::CrateDir, None, answered(answer)),
        Err(LocateError::InvalidPath(b"/tmp/\xff\xfe".to_vec()))
    );
    assert_eq!(
        find_directory(answer),
        Err(LocateError::InvalidPath(b"/tmp/\xff\xfe".to_vec()))
    );
    assert_eq!(
        workspace_dir(None, answered(answer)),
        Err("failed to locate workspace directory (directory path contains invalid UTF-8 (path: \
             /tmp/\u{fffd}\u{fffd}))"
            .to_string())
    );
}

#[test]
fn invalid_path_holds_the_directory_and_not_the_file() {
    let answers: [(&[u8], &[u8]); 4] = [
        (b"/tmp/\xff/Cargo.toml", b"/tmp/\xff"),
        (b"/tmp/\xff//./Cargo.toml\r\n", b"/tmp/\xff"),
        (b"\xff/Carg\xfe.toml\n", b"\xff"),
        (b"/a/\xc3/b/c\n", b"/a/\xc3/b"),
    ];
    for (answer, dir) in answers {
        assert_eq!(find_directory(answer), Err(LocateError::InvalidPath(dir.to_vec())));
    }
    let line = crate_dir(None, answered(b"/tmp/\xff/Cargo.toml\n")).unwrap_err();
    assert!(!line.contains('\n'));
    assert!(!line.contains("Cargo.toml"));
}

#[test]
fn file_name_that_is_no_text_does_not_matter() {
    assert_eq!(
        resolve(LocationKind::CrateDir, None, answered(b"/tmp/dir/Carg\xff.toml\n")),
        Ok("/tmp/dir".to_string())
    );
}

#[test]
fn directory_keeps_text_beyond_ascii() {
    assert_eq!(
        find_directory("/caf\u{e9}/\u{65e5}\u{672c}/Cargo.toml\n".as_bytes()),
        Ok("/caf\u{e9}/\u{65e5}\u{672c}".to_string())
    );
}

#[test]
fn directory_of_a_manifest_in_the_root_is_the_root() {
    assert_eq!(find_directory(b"/Cargo.toml\n"), Ok("/".to_string()));
}

#[test]
fn directory_of_a_relative_manifest_is_relative() {
    assert_eq!(find_directory(b"Cargo.toml\n"), Ok(String::new()));
    assert_eq!(find_directory(b"sub/Cargo.toml"), Ok("sub".to_string()));
}

#[test]
fn absolute_answer_gives_an_absolute_directory() {
    for answer in [&b"/Cargo.toml\n"[..], b"/a/Cargo.toml\n", b"//a//b//Cargo.toml\n"] {
        let dir = find_directory(answer).unwrap();
        assert!(dir.starts_with('/'), "{:?}", dir);
    }
}

#[test]
fn outcome_is_well_formed_unless_a_successful_answer_has_no_parent() {
    assert!(answered(b"/a/Cargo.toml\n").is_well_formed());
    assert!(answered(b"Cargo.toml").is_well_formed());
    assert!(answered(b".").is_well_formed());
    assert!(!answered(b"").is_well_formed());
    assert!(!answered(b"/").is_well_formed());
    assert!(!answered(b"//.").is_well_formed());
    assert!(failed(b"").is_well_formed());
    assert!(ProcessOutcome::Exited { success: false, stdout: b"/".to_vec(), stderr: Vec::new() }
        .is_well_formed());
    assert!(not_run("").is_well_formed());
}

#[test]
fn locate_hands_the_directory_on_unchanged() {
    assert_eq!(
        locate(LocationKind::CrateDir, None, answered(b"/with \"quotes\"/and\\slash/Cargo.toml\n")),
        Ok("/with \"quotes\"/and\\slash".to_string())
    );
}
