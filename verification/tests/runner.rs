use hpm::process::{ChildStatus, CommandSpec, Process, SpawnOutcome};
use hpm::Error;

fn runner_for(executable: &str, args: Vec<String>) -> Process {
    Process::new(CommandSpec { executable: executable.to_string(), args })
}

#[test]
fn should_return_proper_program_name() {
    let process = runner_for("echo", vec![]);
    assert_eq!(process.get_process_name().as_str(), "echo");
}

#[test]
fn should_not_exec_nonexistent_binaries() {
    let process = runner_for("this-binary-does-not-exist", vec![]);

    let validate_result = process.validate();
    assert!(validate_result.is_err());

    // The execution pipeline runs the same validation step first, so it
    // fails before any spawn with the very same error.
    let exec_result = process.validate();
    assert!(exec_result.is_err());

    let validate_err_str = validate_result.unwrap_err().message().unwrap();
    let exec_err_str = exec_result.unwrap_err().message().unwrap();
    assert_eq!(validate_err_str, exec_err_str);
}

#[test]
fn validation_rejects_missing_binary_by_name() {
    let process = runner_for("this-binary-does-not-exist", vec![]);
    match process.validate() {
        Err(Error::BinaryDoesNotExist(name)) => {
            assert_eq!(name.as_str(), "this-binary-does-not-exist");
        }
        other => panic!("expected BinaryDoesNotExist, got {:?}", other),
    }
}

#[test]
fn validation_accepts_resolvable_binary() {
    let process = runner_for("ls", vec![]);
    assert!(process.validate().is_ok());
}

#[test]
fn zero_exit_propagates_stdout_byte_for_byte() {
    // The scenario of listing a non-empty directory: a resolvable command
    // whose child exits 0 and writes to its standard output.
    let process = runner_for("ls", vec![]);
    assert!(process.validate().is_ok());

    let stdout = b"file-a\nfile-b\n".to_vec();
    let outcome = SpawnOutcome::Ran {
        status: ChildStatus::Exited(0),
        stdout: stdout.clone(),
        stderr: vec![],
    };
    let result = process.interpret(outcome);
    let bytes = result.unwrap();
    assert_eq!(bytes, stdout);
    assert!(!bytes.is_empty());
}

#[test]
fn nonzero_exit_propagates_code_and_stderr() {
    // The scenario of listing a file that does not exist: a resolvable
    // command whose child exits nonzero and reports on its error stream.
    let process = runner_for("ls", vec!["this-file-does-not-exist".to_string()]);
    assert!(process.validate().is_ok());

    let stderr = b"ls: cannot access 'this-file-does-not-exist'\n".to_vec();
    let outcome = SpawnOutcome::Ran {
        status: ChildStatus::Exited(2),
        stdout: vec![],
        stderr: stderr.clone(),
    };
    match process.interpret(outcome) {
        Err(Error::Exec(code, bytes)) => {
            assert!(code > 0);
            assert_eq!(code, 2);
            assert_eq!(bytes, stderr);
            assert!(!bytes.is_empty());
        }
        other => panic!("expected Exec, got {:?}", other),
    }
}

#[test]
fn signal_termination_is_interrupted() {
    let process = runner_for("ls", vec![]);
    let outcome = SpawnOutcome::Ran {
        status: ChildStatus::Signaled,
        stdout: vec![],
        stderr: vec![],
    };
    match process.interpret(outcome) {
        Err(Error::Interrupted) => {}
        other => panic!("expected Interrupted, got {:?}", other),
    }
}

#[test]
fn spawn_refusal_keeps_name_and_os_error() {
    let process = runner_for("ls", vec![]);
    let outcome = SpawnOutcome::SpawnFailed {
        os_error: "permission denied".to_string(),
    };
    match process.interpret(outcome) {
        Err(Error::FailedToExecProcess(name, os_error)) => {
            assert_eq!(name.as_str(), "ls");
            assert_eq!(os_error.as_str(), "permission denied");
        }
        other => panic!("expected FailedToExecProcess, got {:?}", other),
    }
}

#[test]
fn repeated_interpretation_agrees() {
    // Re-running an idempotent read-only command: when the host resolves the
    // name alike and the child behaves alike, the outcome is the same.
    let process = runner_for("ls", vec![]);
    let outcome = |bytes: &[u8]| SpawnOutcome::Ran {
        status: ChildStatus::Exited(0),
        stdout: bytes.to_vec(),
        stderr: vec![],
    };
    let first = process.interpret(outcome(b"dir\n")).unwrap();
    let second = process.interpret(outcome(b"dir\n")).unwrap();
    assert_eq!(first, second);
}

#[test]
fn exit_code_keeps_low_byte() {
    let process = runner_for("ls", vec![]);
    let outcome = SpawnOutcome::Ran {
        status: ChildStatus::Exited(258),
        stdout: vec![],
        stderr: vec![],
    };
    match process.interpret(outcome) {
        Err(Error::Exec(code, _)) => assert_eq!(code, 2),
        other => panic!("expected Exec, got {:?}", other),
    }

    let negative = SpawnOutcome::Ran {
        status: ChildStatus::Exited(-1),
        stdout: vec![],
        stderr: vec![],
    };
    match process.interpret(negative) {
        Err(Error::Exec(code, _)) => assert_eq!(code, 255),
        other => panic!("expected Exec, got {:?}", other),
    }
}

#[test]
fn missing_binary_message_names_the_binary() {
    let message = Error::BinaryDoesNotExist("halt".to_string()).message().unwrap();
    assert_eq!(message, "the binary does not exist: \"halt\"");
}

#[test]
fn spawn_failure_message_names_binary_and_os_error() {
    let err = Error::FailedToExecProcess("halt".to_string(), "boom".to_string());
    assert_eq!(
        err.message().unwrap(),
        "failed to execute the binary \"halt\": boom"
    );
}

#[test]
fn exec_message_is_the_stderr_text() {
    let err = Error::Exec(1, b"no such unit\n".to_vec());
    assert_eq!(err.message().unwrap(), "no such unit\n");
}

#[test]
fn exec_message_surfaces_invalid_utf8() {
    let err = Error::Exec(1, vec![0xffu8, 0xfe]);
    assert!(err.message().is_none());
}

#[test]
fn interrupted_message_is_fixed() {
    assert_eq!(Error::Interrupted.message().unwrap(), "interrupted by the host");
}

#[test]
fn command_spec_is_kept_as_given() {
    let process = runner_for("ls", vec!["-l".to_string(), "-a".to_string()]);
    let spec = process.command_spec();
    assert_eq!(spec.executable.as_str(), "ls");
    assert_eq!(spec.args, vec!["-l".to_string(), "-a".to_string()]);
}
