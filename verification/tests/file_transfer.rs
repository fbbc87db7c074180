use thin_edge::file_transfer::delete;
use thin_edge::file_transfer::get;
use thin_edge::file_transfer::put;
use thin_edge::file_transfer::response_status;
use thin_edge::file_transfer::FileAction;
use thin_edge::file_transfer::separate_path_and_file_name;
use thin_edge::file_transfer::FileOutcome;
use thin_edge::file_transfer::FileTransferError;
use thin_edge::file_transfer::HttpConfig;
use thin_edge::file_transfer::Method;
use thin_edge::logged_command::log_outcome;
use thin_edge::logged_command::stderr_after_timeout;
use thin_edge::logged_command::timeout_operation;
use thin_edge::logged_command::TimeoutStep;
use thin_edge::logged_command::LoggedCommand;
use thin_edge::logged_command::Outcome;

#[test]
fn test_remove_prefix_from_uri() {
    let file_transfer = HttpConfig::default();
    assert_eq!(
        file_transfer
            .local_path_for_uri("/tedge/some/dir/file".to_string())
            .ok(),
        Some("/var/tedge/some/dir/file".to_string())
    );
    assert_eq!(
        file_transfer
            .local_path_for_uri("/wrong/some/dir/file".to_string())
            .ok(),
        None
    );
}

#[test]
fn test_separate_path_and_file_name() {
    let (actual_path, actual_file_name) =
        separate_path_and_file_name("/tedge/some/dir/file").unwrap();
    assert_eq!(actual_path, "/tedge/some/dir");
    assert_eq!(actual_file_name, "file");
    let (actual_path, actual_file_name) = separate_path_and_file_name("/tedge/some/dir/").unwrap();
    assert_eq!(actual_path, "/tedge/some/dir");
    assert_eq!(actual_file_name, "");
    assert!(separate_path_and_file_name("file").is_none());
    assert_eq!(
        separate_path_and_file_name("/file").unwrap(),
        ("".to_string(), "file".to_string())
    );
}

#[test]
fn test_verify_uri() {
    let file_transfer = HttpConfig::default();
    assert!(file_transfer
        .local_path_for_uri(String::from("/tedge/file-transfer/../../../bin/sh"))
        .is_err());
    assert!(file_transfer
        .local_path_for_uri(String::from(
            "/tedge/file-transfer/../file-transfer/new/dir/file"
        ))
        .is_ok());
}

#[test]
fn path_traversal_is_rejected() {
    let file_transfer = HttpConfig::default();
    match file_transfer.local_path_for_uri("/tedge/file-transfer/../../../bin/sh".into()) {
        Err(FileTransferError::InvalidURI { value }) => assert_eq!(value, "/bin/sh"),
        other => panic!("unexpected result: {:?}", other),
    }
    assert_eq!(response_status(Method::Put, FileOutcome::Refused), 403);
    assert_eq!(
        file_transfer
            .local_path_for_uri("/tedge/file-transfer/../file-transfer/new/f".into())
            .unwrap(),
        "/var/tedge/file-transfer/new/f"
    );
    match file_transfer.local_path_for_uri("/tedge//etc/passwd".into()) {
        Err(FileTransferError::InvalidURI { value }) => assert_eq!(value, "/etc/passwd"),
        other => panic!("unexpected result: {:?}", other),
    }
    match file_transfer.local_path_for_uri("/elsewhere/f".into()) {
        Err(FileTransferError::InvalidURI { value }) => assert_eq!(value, "/elsewhere/f"),
        other => panic!("unexpected result: {:?}", other),
    }
    assert!(file_transfer
        .local_path_for_uri("/tedge/../tedge-other/f".into())
        .is_err());
}

#[test]
fn configuration_of_the_service() {
    let config = HttpConfig::default();
    assert_eq!(config.bind_port, 8000);
    assert_eq!(config.file_transfer_end_point(), "/tedge/file-transfer/*path");
    let config = config.with_port(3333).with_data_dir("/tmp/data".into());
    assert_eq!(config.bind_port, 3333);
    assert_eq!(
        config
            .local_path_for_uri("/tedge/file-transfer/a/./b".into())
            .unwrap(),
        "/tmp/data/file-transfer/a/b"
    );
}

#[test]
fn statuses_of_the_service() {
    assert_eq!(response_status(Method::Get, FileOutcome::Done), 200);
    assert_eq!(response_status(Method::Get, FileOutcome::Missing), 404);
    assert_eq!(response_status(Method::Get, FileOutcome::Failed), 404);
    assert_eq!(response_status(Method::Get, FileOutcome::Refused), 403);
    assert_eq!(response_status(Method::Put, FileOutcome::Done), 201);
    assert_eq!(response_status(Method::Put, FileOutcome::Failed), 403);
    assert_eq!(response_status(Method::Put, FileOutcome::Missing), 403);
    assert_eq!(response_status(Method::Delete, FileOutcome::Done), 202);
    assert_eq!(response_status(Method::Delete, FileOutcome::Missing), 202);
    assert_eq!(response_status(Method::Delete, FileOutcome::Failed), 403);
    assert_eq!(response_status(Method::Delete, FileOutcome::Refused), 403);
}

#[test]
fn on_execute_are_logged_command_line_exit_status_stdout_and_stderr() {
    let mut command = LoggedCommand::new("echo");
    command.arg("Hello");
    command.arg("World!");
    let log = log_outcome(
        &command.command_line(),
        &Outcome::Ran {
            code: Some(0),
            stdout: b"Hello World!\n".to_vec(),
            stderr: vec![],
        },
    );
    assert_eq!(
        String::from_utf8(log).unwrap(),
        "----- $ echo \"Hello\" \"World!\"\nexit status: 0\n\nstdout <<EOF\nHello World!\nEOF\n\nstderr <<EOF\nEOF\n"
    );
}

#[test]
fn on_execute_with_error_stderr_is_logged() {
    let mut command = LoggedCommand::new("ls");
    command.arg("dummy-file");
    let log = log_outcome(
        &command.command_line(),
        &Outcome::Ran {
            code: Some(2),
            stdout: vec![],
            stderr: b"ls: cannot access 'dummy-file': No such file or directory\n".to_vec(),
        },
    );
    assert_eq!(
        String::from_utf8(log).unwrap(),
        "----- $ ls \"dummy-file\"\nexit status: 2\n\nstdout <<EOF\nEOF\n\nstderr <<EOF\nls: cannot access 'dummy-file': No such file or directory\nEOF\n"
    );
}

#[test]
fn on_execution_error_are_logged_command_line_and_error() {
    let command = LoggedCommand::new("dummy-command");
    let log = log_outcome(
        &command.command_line(),
        &Outcome::NotRun {
            error: "No such file or directory (os error 2)".into(),
        },
    );
    assert_eq!(
        String::from_utf8(log).unwrap(),
        "----- $ dummy-command\nerror: No such file or directory (os error 2)\n"
    );
}

#[test]
fn log_of_odd_ends() {
    let mut command = LoggedCommand::new("sh");
    command.arg("a \"b\"\n");
    assert_eq!(command.command_line(), "sh \"a \\\"b\\\"\\n\"");
    let killed = log_outcome(
        "sleep",
        &Outcome::Ran {
            code: None,
            stdout: vec![],
            stderr: stderr_after_timeout(b"late".to_vec()),
        },
    );
    assert_eq!(
        String::from_utf8(killed).unwrap(),
        "----- $ sleep\nexit status: unknown\n\nstdout <<EOF\nEOF\n\nstderr <<EOF\nlateoperation failed due to timeoutEOF\n"
    );
    let negative = log_outcome(
        "x",
        &Outcome::Ran {
            code: Some(i32::MIN),
            stdout: vec![],
            stderr: vec![],
        },
    );
    assert!(String::from_utf8(negative)
        .unwrap()
        .contains("exit status: -2147483648\n"));
}

#[test]
fn a_command_that_takes_too_long_is_stopped_and_then_killed() {
    assert_eq!(
        timeout_operation(),
        [
            TimeoutStep::Terminate,
            TimeoutStep::Wait { seconds: 2 },
            TimeoutStep::Kill,
            TimeoutStep::CollectOutput
        ]
    );
}

#[test]
fn a_refused_address_touches_no_file() {
    let config = HttpConfig::default();
    for uri in [
        "/tedge/file-transfer/../../../bin/sh",
        "/tedge/../etc/passwd",
        "/elsewhere/f",
    ] {
        assert!(matches!(
            put(uri.into(), &config),
            FileAction::Answer(FileOutcome::Refused)
        ));
        assert!(matches!(
            get(uri.into(), &config),
            FileAction::Answer(FileOutcome::Refused)
        ));
        assert!(matches!(
            delete(uri.into(), &config),
            FileAction::Answer(FileOutcome::Refused)
        ));
    }
    assert_eq!(response_status(Method::Put, FileOutcome::Refused), 403);
}

#[test]
fn an_accepted_address_names_the_file_under_the_data_directory() {
    let config = HttpConfig::default();
    match put("/tedge/file-transfer/../file-transfer/new/f".into(), &config) {
        FileAction::Write { directory, file } => {
            assert_eq!(directory, "/var/tedge/file-transfer/new");
            assert_eq!(file, "/var/tedge/file-transfer/new/f");
        }
        other => panic!("unexpected action: {:?}", other),
    }
    match put("/tedge/file-transfer/dir/".into(), &config) {
        FileAction::Write { directory, file } => {
            assert_eq!(directory, "/var/tedge/file-transfer");
            assert_eq!(file, "/var/tedge/file-transfer/dir");
        }
        other => panic!("unexpected action: {:?}", other),
    }
    match get("/tedge/file-transfer/a/b".into(), &config) {
        FileAction::Read { file } => assert_eq!(file, "/var/tedge/file-transfer/a/b"),
        other => panic!("unexpected action: {:?}", other),
    }
    match delete("/tedge/file-transfer/a/./b".into(), &config) {
        FileAction::Remove { file } => assert_eq!(file, "/var/tedge/file-transfer/a/b"),
        other => panic!("unexpected action: {:?}", other),
    }
    let relative = HttpConfig::default().with_data_dir("data/".into());
    match put("/tedge/x/y".into(), &relative) {
        FileAction::Write { directory, file } => {
            assert_eq!(directory, "data/data/x");
            assert_eq!(file, "data/data/x/y");
        }
        other => panic!("unexpected action: {:?}", other),
    }
}
