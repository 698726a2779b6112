use tuicr::process::{
    collect_command_output, CapturedOutput, CommandOutputError, CommandOutputErrorKind,
    SpawnFailure,
};

#[test]
fn success_gives_stdout() {
    let out = CapturedOutput {
        code: Some(0),
        stdout: b"line one\nline two\n".to_vec(),
        stderr: b"warning\n".to_vec(),
    };
    assert_eq!(
        collect_command_output(Ok(out)),
        Ok("line one\nline two\n".to_string())
    );
}

#[test]
fn invalid_utf8_is_replaced() {
    let out = CapturedOutput {
        code: Some(0),
        stdout: vec![b'a', 0xFF, b'b'],
        stderr: vec![],
    };
    assert_eq!(collect_command_output(Ok(out)), Ok("a\u{FFFD}b".to_string()));
}

#[test]
fn failure_gives_trimmed_stderr() {
    let out = CapturedOutput {
        code: Some(128),
        stdout: b"ignored".to_vec(),
        stderr: b"  fatal: not a git repository\n".to_vec(),
    };
    assert_eq!(
        collect_command_output(Ok(out)),
        Err(CommandOutputError {
            kind: CommandOutputErrorKind::Unsuccessful,
            status: Some(128),
            stderr: "fatal: not a git repository".to_string(),
        })
    );
}

#[test]
fn signal_is_unsuccessful() {
    let out = CapturedOutput { code: None, stdout: vec![], stderr: vec![] };
    assert_eq!(
        collect_command_output(Ok(out)),
        Err(CommandOutputError {
            kind: CommandOutputErrorKind::Unsuccessful,
            status: None,
            stderr: String::new(),
        })
    );
}

#[test]
fn spawn_failures() {
    let missing = SpawnFailure {
        not_found: true,
        message: "No such file or directory (os error 2)".to_string(),
    };
    assert_eq!(
        collect_command_output(Err(missing)),
        Err(CommandOutputError {
            kind: CommandOutputErrorKind::NotFound,
            status: None,
            stderr: "No such file or directory (os error 2)".to_string(),
        })
    );
    let denied = SpawnFailure {
        not_found: false,
        message: "Permission denied (os error 13)".to_string(),
    };
    assert_eq!(
        collect_command_output(Err(denied)),
        Err(CommandOutputError {
            kind: CommandOutputErrorKind::SpawnFailed,
            status: None,
            stderr: "Permission denied (os error 13)".to_string(),
        })
    );
}
