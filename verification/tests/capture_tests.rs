use dev_scope::capture::{
    check_pre_exec, first_word, join_strings, split_command_args, CaptureError, CaptureOpts,
    OutputCapture, OutputDestination,
};

fn capture() -> OutputCapture {
    OutputCapture::new(
        "/tmp".to_string(),
        "hello world".to_string(),
        vec![(1715612600, "stdout".to_string()), (1715612603, "later".to_string())],
        vec![(1715612601, "stderr".to_string()), (1715612603, "same time".to_string())],
        Some(1),
        1715612599,
        1715612604,
    )
}

#[test]
fn user_output_interleaves_by_time() {
    assert_eq!("stdout\nstderr\nlater\nsame time", capture().generate_user_output());
}

#[test]
fn stdout_and_stderr_joined() {
    let c = capture();
    assert_eq!("stdout\nlater", c.get_stdout());
    assert_eq!("stderr\nsame time", c.get_stderr());
}

#[test]
fn command_joins_args() {
    let args = vec!["echo".to_string(), "a".to_string(), "b".to_string()];
    let opts = CaptureOpts {
        working_dir: "/tmp",
        env_vars: Vec::new(),
        path: "/usr/bin",
        args: &args,
        output_dest: OutputDestination::Null,
    };
    assert_eq!("echo a b", opts.command());
    assert_eq!("", join_strings(&[], ' '));
}

#[test]
fn args_split_on_single_spaces() {
    assert_eq!(vec!["ls".to_string(), "".to_string(), "-la".to_string()], split_command_args("ls  -la"));
    assert_eq!("ls", first_word("ls -la"));
}

#[test]
fn pre_exec_checks() {
    assert!(matches!(
        check_pre_exec("nope -x", None, false, 0),
        Err(CaptureError::MissingShExec { name }) if name == "nope -x"
    ));
    assert!(matches!(
        check_pre_exec("x", Some("/bin/x"), false, 0o755),
        Err(CaptureError::MissingShExec { name }) if name == "/bin/x"
    ));
    assert!(check_pre_exec("x", Some("/bin/x"), true, 0x700).is_ok());
    assert!(check_pre_exec("x", Some("/bin/x"), true, 0x0ff).is_err());
}
