use std::io::{Error, ErrorKind};

use process_builder::{process, ExitStatus, ProcessBuilder, ProcessOutput};

fn builder(program: &str, args: &[&str]) -> ProcessBuilder {
    let mut b = process(program.as_bytes(), b"/");
    for a in args {
        b.arg(a.as_bytes());
    }
    b
}

#[test]
fn missing_program_is_spawn_failure() {
    let b = builder("definitely-not-a-real-binary-xyz", &[]);
    let err = b.exec_outcome(Err(Error::from(ErrorKind::NotFound))).unwrap_err();
    assert_eq!(err.desc, "Could not execute process `definitely-not-a-real-binary-xyz`");
    assert_eq!(err.cause.map(|e| e.kind()), Some(ErrorKind::NotFound));
    assert!(err.exit.is_none());
    assert!(err.output.is_none());
}

#[test]
fn missing_program_with_capture_is_spawn_failure() {
    let b = builder("definitely-not-a-real-binary-xyz", &["-v"]);
    let err = b
        .exec_with_output_outcome(Err(Error::from(ErrorKind::PermissionDenied)))
        .unwrap_err();
    assert_eq!(err.desc, "Could not execute process `definitely-not-a-real-binary-xyz -v`");
    assert_eq!(err.cause.map(|e| e.kind()), Some(ErrorKind::PermissionDenied));
    assert!(err.exit.is_none());
    assert!(err.output.is_none());
}

#[test]
fn zero_exit_is_success() {
    let b = builder("true", &[]);
    assert!(b.exec_outcome(Ok(ExitStatus { code: Some(0) })).is_ok());
}

#[test]
fn exit_one_is_exit_failure() {
    let b = builder("false", &[]);
    let err = b.exec_outcome(Ok(ExitStatus { code: Some(1) })).unwrap_err();
    assert_eq!(err.desc, "Process didn't exit successfully: `false`");
    assert!(err.cause.is_none());
    assert_eq!(err.exit.map(|s| s.code), Some(Some(1)));
    assert!(err.output.is_none());
}

#[test]
fn exit_one_with_capture_keeps_output() {
    let b = builder("false", &["--x"]);
    let out = ProcessOutput {
        status: ExitStatus { code: Some(1) },
        stdout: b"partial".to_vec(),
        stderr: b"oops\n".to_vec(),
    };
    let err = b.exec_with_output_outcome(Ok(out)).unwrap_err();
    assert_eq!(err.desc, "Process didn't exit successfully: `false --x`");
    assert!(err.cause.is_none());
    assert_eq!(err.exit.map(|s| s.code), Some(Some(1)));
    let kept = err.output.unwrap();
    assert_eq!(kept.status.code, Some(1));
    assert_eq!(kept.stdout, b"partial".to_vec());
    assert_eq!(kept.stderr, b"oops\n".to_vec());
}

#[test]
fn signal_end_is_exit_failure() {
    let b = builder("sleep", &["100"]);
    let err = b.exec_outcome(Ok(ExitStatus { code: None })).unwrap_err();
    assert_eq!(err.desc, "Process didn't exit successfully: `sleep 100`");
    assert_eq!(err.exit.map(|s| s.code), Some(None));
    assert!(err.cause.is_none());
}
