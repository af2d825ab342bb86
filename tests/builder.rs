use process_builder::{process, ExitStatus, ProcessBuilder, ProcessOutput};

fn builder(program: &str) -> ProcessBuilder {
    process(program.as_bytes(), b"/work")
}

fn arg_list(items: &[&str]) -> Vec<Vec<u8>> {
    items.iter().map(|s| s.as_bytes().to_vec()).collect()
}

#[test]
fn new_builder_is_empty() {
    let b = builder("ls");
    assert!(b.get_args().is_empty());
    assert_eq!(b.get_cwd(), b"/work");
    assert!(b.get_envs().is_empty());
}

#[test]
fn args_keep_call_order() {
    let mut b = builder("cc");
    b.arg(b"-c").args(&arg_list(&["a.c", "b.c"])).arg(b"-o");
    b.args(&[]).arg(b"out");
    assert_eq!(b.get_args().to_vec(), arg_list(&["-c", "a.c", "b.c", "-o", "out"]));
}

#[test]
fn cwd_replaces_directory() {
    let mut b = builder("ls");
    b.cwd(b"/tmp").cwd(b"/srv");
    assert_eq!(b.get_cwd(), b"/srv");
}

#[test]
fn set_variable_beats_ambient() {
    let mut b = builder("ls");
    b.env("K", b"v");
    assert_eq!(b.get_env("K", Some(b"ambient".to_vec())), Some(b"v".to_vec()));
    assert_eq!(b.get_env("K", None), Some(b"v".to_vec()));
}

#[test]
fn removed_variable_is_absent() {
    let mut b = builder("ls");
    b.env_remove("K");
    assert_eq!(b.get_env("K", Some(b"ambient".to_vec())), None);
    assert_eq!(b.get_env("K", None), None);
}

#[test]
fn untouched_variable_is_ambient() {
    let mut b = builder("ls");
    b.env("OTHER", b"x").env_remove("GONE");
    assert_eq!(b.get_env("K", Some(b"ambient".to_vec())), Some(b"ambient".to_vec()));
    assert_eq!(b.get_env("K", None), None);
}

#[test]
fn last_override_is_kept() {
    let mut b = builder("ls");
    b.env("K", b"one").env("K", b"two");
    assert_eq!(b.get_env("K", None), Some(b"two".to_vec()));
    assert_eq!(b.get_envs().len(), 1);
    b.env_remove("K");
    assert_eq!(b.get_envs().to_vec(), vec![("K".to_string(), None)]);
    b.env("K", b"three");
    assert_eq!(b.get_envs().to_vec(), vec![("K".to_string(), Some(b"three".to_vec()))]);
}

#[test]
fn build_command_twice_gives_same_command() {
    let mut b = builder("make");
    b.arg(b"all").cwd(b"/src").env("A", b"1").env_remove("B");
    let first = b.build_command();
    let second = b.build_command();
    assert_eq!(first.program, second.program);
    assert_eq!(first.cwd, second.cwd);
    assert_eq!(first.args, second.args);
    assert_eq!(first.envs, second.envs);
    assert_eq!(first.program, b"make".to_vec());
    assert_eq!(first.cwd, b"/src".to_vec());
    assert_eq!(first.args, arg_list(&["all"]));
    let mut envs = first.envs.clone();
    envs.sort();
    assert_eq!(
        envs,
        vec![("A".to_string(), Some(b"1".to_vec())), ("B".to_string(), None)]
    );
    assert_eq!(b.get_args().to_vec(), arg_list(&["all"]));
}

#[test]
fn removal_reaches_command_over_ambient() {
    let mut b = builder("printenv");
    b.arg(b"SOME_VAR").env_remove("SOME_VAR");
    let cmd = b.build_command();
    assert_eq!(cmd.envs, vec![("SOME_VAR".to_string(), None)]);
    assert_eq!(b.get_env("SOME_VAR", Some(b"foo".to_vec())), None);
}

#[test]
fn display_git_status() {
    let mut b = builder("git");
    b.args(&arg_list(&["status", "--short"]));
    assert_eq!(b.to_string(), "`git status --short`");
}

#[test]
fn display_without_args() {
    assert_eq!(builder("true").to_string(), "`true`");
}

#[test]
fn display_is_lossy_for_invalid_bytes() {
    let mut b = builder("cat");
    b.arg(&[b'a', 0xff, b'b']);
    assert_eq!(b.to_string(), "`cat a\u{FFFD}b`");
}

#[test]
fn exit_status_success_only_on_zero() {
    assert!(ExitStatus { code: Some(0) }.success());
    assert!(!ExitStatus { code: Some(1) }.success());
    assert!(!ExitStatus { code: Some(-1) }.success());
    assert!(!ExitStatus { code: None }.success());
}

#[test]
fn output_of_echo_is_returned() {
    let mut b = builder("echo");
    b.arg(b"hello");
    let out = ProcessOutput {
        status: ExitStatus { code: Some(0) },
        stdout: b"hello\n".to_vec(),
        stderr: Vec::new(),
    };
    let got = b.exec_with_output_outcome(Ok(out)).unwrap();
    assert_eq!(got.status.code, Some(0));
    assert_eq!(got.stdout, b"hello\n".to_vec());
    assert!(got.stderr.is_empty());
}
