use subprocess::Exec;
use subprocess::ExitStatus;
use subprocess::Popen;
use subprocess::PopenConfig;
use subprocess::PopenError;
use subprocess::Redirection;
use subprocess::WaitOutcome;
use subprocess::cmdline::assemble_cmdline;
use subprocess::numeric::format_decimal;
use subprocess::numeric::parse_decimal;
use subprocess::pipes::make_pipe;
use subprocess::pipes::read_to_end;
use subprocess::pipes::set_inheritable;
use subprocess::status::outcome_status;

fn argv(words: &[&str]) -> Vec<String> {
    words.iter().map(|w| w.to_string()).collect()
}

fn cfg(stdin: Redirection, stdout: Redirection, stderr: Redirection) -> PopenConfig {
    PopenConfig {
        stdin,
        stdout,
        stderr,
        ..PopenConfig::default()
    }
}

fn is_cloexec(fd: i32) -> bool {
    let flags = nix::fcntl::fcntl(fd, nix::fcntl::FcntlArg::F_GETFD).unwrap();
    nix::fcntl::FdFlag::from_bits_truncate(flags).contains(nix::fcntl::FdFlag::FD_CLOEXEC)
}

#[test]
fn success_only_for_zero_exit() {
    assert!(ExitStatus::Exited(0).success());
    assert!(!ExitStatus::Exited(1).success());
    assert!(!ExitStatus::Signaled(15).success());
    assert!(!ExitStatus::Undetermined.success());
}

#[test]
fn outcome_translation() {
    assert_eq!(
        outcome_status(&WaitOutcome::Exited(7, 13)),
        Some(ExitStatus::Exited(13))
    );
    assert_eq!(
        outcome_status(&WaitOutcome::Signaled(7, 9)),
        Some(ExitStatus::Signaled(9))
    );
    assert_eq!(outcome_status(&WaitOutcome::StillRunning), None);
}

#[test]
fn decimal_format_concrete() {
    assert_eq!(format_decimal(0), b"0".to_vec());
    assert_eq!(format_decimal(13), b"13".to_vec());
    assert_eq!(format_decimal(-2), b"-2".to_vec());
    assert_eq!(format_decimal(i32::MIN), b"-2147483648".to_vec());
}

#[test]
fn decimal_parse_concrete() {
    assert_eq!(parse_decimal(&b"13".to_vec()), Some(13));
    assert_eq!(parse_decimal(&b"-1".to_vec()), Some(-1));
    assert_eq!(parse_decimal(&b"2147483647".to_vec()), Some(i32::MAX));
    assert_eq!(parse_decimal(&b"-2147483648".to_vec()), Some(i32::MIN));
    assert_eq!(parse_decimal(&b"2147483648".to_vec()), None);
    assert_eq!(parse_decimal(&b"".to_vec()), None);
    assert_eq!(parse_decimal(&b"-".to_vec()), None);
    assert_eq!(parse_decimal(&b"1a".to_vec()), None);
}

#[test]
fn decimal_roundtrip_concrete() {
    for v in [0i32, 1, -1, 127, -17, i32::MAX, i32::MIN] {
        assert_eq!(parse_decimal(&format_decimal(v)), Some(v));
    }
}

fn wide(s: &str) -> Vec<u16> {
    s.chars().map(|c| c as u16).collect()
}

#[test]
fn cmdline_quoting_concrete() {
    // Plain words stand bare; a lone backslash needs no quotes.
    let line = assemble_cmdline(&vec![wide("ab"), wide("a\\")]).unwrap();
    assert_eq!(line, wide("ab a\\ "));
    // Whitespace forces quotes.
    let line = assemble_cmdline(&vec![wide("a b")]).unwrap();
    assert_eq!(line, wide("\"a b\" "));
    // A quote is escaped; backslashes before it are doubled.
    let line = assemble_cmdline(&vec![wide("a\"b")]).unwrap();
    assert_eq!(line, wide("\"a\\\"b\" "));
    let line = assemble_cmdline(&vec![wide("a\\\"b")]).unwrap();
    assert_eq!(line, wide("\"a\\\\\\\"b\" "));
    // A trailing backslash run inside quotes is doubled.
    let line = assemble_cmdline(&vec![wide("a b\\")]).unwrap();
    assert_eq!(line, wide("\"a b\\\\\" "));
    // The empty argument is quoted.
    let line = assemble_cmdline(&vec![wide("")]).unwrap();
    assert_eq!(line, wide("\"\" "));
    // NUL characters are rejected.
    assert!(assemble_cmdline(&vec![vec![97u16, 0u16]]).is_err());
}

#[test]
fn parent_pipe_ends_not_inheritable() {
    let mut p = Popen::create(
        &argv(&["cat"]),
        cfg(Redirection::Pipe, Redirection::Pipe, Redirection::Pipe),
    )
    .unwrap();
    assert!(is_cloexec(p.stdin.as_ref().unwrap().raw()));
    assert!(is_cloexec(p.stdout.as_ref().unwrap().raw()));
    assert!(is_cloexec(p.stderr.as_ref().unwrap().raw()));
    let (out, err) = p.communicate_bytes(Some(b"")).unwrap();
    assert_eq!(out.unwrap(), b"");
    assert_eq!(err.unwrap(), b"");
    assert_eq!(p.wait().unwrap(), ExitStatus::Exited(0));
}

#[test]
fn set_inheritable_controls_cloexec() {
    let (mut r, w) = make_pipe().unwrap();
    assert!(!is_cloexec(r.raw()));
    set_inheritable(&mut r, false).unwrap();
    assert!(is_cloexec(r.raw()));
    set_inheritable(&mut r, true).unwrap();
    assert!(!is_cloexec(r.raw()));
    r.close().unwrap();
    w.close().unwrap();
}

#[test]
fn spawn_error_carries_enoent() {
    let result = Popen::create(&argv(&["nosuchcommand"]), PopenConfig::default());
    match result {
        Err(PopenError::SpawnError(code)) => assert_eq!(code, libc::ENOENT),
        other => panic!("expected a spawn error, got {:?}", other.is_ok()),
    }
}

#[test]
fn merge_stdin_is_logic_error() {
    let result = Popen::create(
        &argv(&["true"]),
        cfg(Redirection::Merge, Redirection::Inherit, Redirection::Inherit),
    );
    assert!(matches!(result, Err(PopenError::LogicError(_))));
}

#[test]
fn empty_argv_is_logic_error() {
    let result = Popen::create(&Vec::new(), PopenConfig::default());
    assert!(matches!(result, Err(PopenError::LogicError(_))));
}

#[test]
fn wait_and_poll_are_idempotent() {
    let mut p = Popen::create(&argv(&["true"]), PopenConfig::default()).unwrap();
    let first = p.wait().unwrap();
    assert_eq!(first, ExitStatus::Exited(0));
    assert_eq!(p.wait().unwrap(), first);
    assert_eq!(p.poll(), Some(first));
    assert_eq!(p.wait().unwrap(), first);
    assert_eq!(p.pid(), None);
}

#[test]
fn detach_then_wait_is_undetermined() {
    let mut p = Popen::create(&argv(&["true"]), PopenConfig::default()).unwrap();
    assert!(p.pid().is_some());
    p.detach();
    assert_eq!(p.pid(), None);
    assert_eq!(p.wait().unwrap(), ExitStatus::Undetermined);
    assert_eq!(p.wait().unwrap(), ExitStatus::Undetermined);
}

#[test]
fn terminate_after_exit_is_noop() {
    let mut p = Popen::create(&argv(&["true"]), PopenConfig::default()).unwrap();
    assert_eq!(p.wait().unwrap(), ExitStatus::Exited(0));
    p.terminate().unwrap();
    p.kill().unwrap();
    assert_eq!(p.wait().unwrap(), ExitStatus::Exited(0));
}

#[test]
fn wait_timeout_times_out_then_sees_exit() {
    let mut p = Popen::create(&argv(&["sleep", "5"]), PopenConfig::default()).unwrap();
    let early = p
        .wait_timeout(std::time::Duration::from_millis(60))
        .unwrap();
    assert_eq!(early, None);
    p.terminate().unwrap();
    let late = p
        .wait_timeout(std::time::Duration::from_secs(10))
        .unwrap();
    assert_eq!(late, Some(ExitStatus::Signaled(libc::SIGTERM as u8)));
    assert_eq!(
        p.wait_timeout(std::time::Duration::from_millis(0)).unwrap(),
        Some(ExitStatus::Signaled(libc::SIGTERM as u8))
    );
}

#[test]
fn echo_child_round_trip() {
    let mut pattern: Vec<u8> = Vec::new();
    for i in 0..100_000usize {
        pattern.push((i % 251) as u8);
    }
    let mut p = Popen::create(
        &argv(&["cat"]),
        cfg(Redirection::Pipe, Redirection::Pipe, Redirection::Inherit),
    )
    .unwrap();
    let (out, err) = p.communicate_bytes(Some(&pattern)).unwrap();
    assert_eq!(out.unwrap(), pattern);
    assert!(err.is_none());
    assert_eq!(p.wait().unwrap(), ExitStatus::Exited(0));
}

#[test]
fn merge_stderr_into_stdout_keeps_order() {
    let mut p = Popen::create(
        &argv(&["sh", "-c", "echo one; echo two >&2; echo three"]),
        cfg(Redirection::Inherit, Redirection::Pipe, Redirection::Merge),
    )
    .unwrap();
    let out = read_to_end(p.stdout.take().unwrap()).unwrap();
    assert_eq!(String::from_utf8(out).unwrap(), "one\ntwo\nthree\n");
    assert_eq!(p.wait().unwrap(), ExitStatus::Exited(0));
}

#[test]
fn merge_stdout_into_stderr() {
    let mut p = Popen::create(
        &argv(&["sh", "-c", "echo one; echo two >&2"]),
        cfg(Redirection::Inherit, Redirection::Merge, Redirection::Pipe),
    )
    .unwrap();
    let err = read_to_end(p.stderr.take().unwrap()).unwrap();
    assert_eq!(String::from_utf8(err).unwrap(), "one\ntwo\n");
    assert_eq!(p.wait().unwrap(), ExitStatus::Exited(0));
}

#[test]
fn communicate_rejects_invalid_utf8() {
    let mut p = Popen::create(
        &argv(&["sh", "-c", r"printf '\377'"]),
        cfg(Redirection::Inherit, Redirection::Pipe, Redirection::Inherit),
    )
    .unwrap();
    let result = p.communicate(None);
    match result {
        Err(PopenError::UtfError(bytes)) => assert_eq!(bytes, vec![0xffu8]),
        _ => panic!("expected a decode failure"),
    }
    assert_eq!(p.wait().unwrap(), ExitStatus::Exited(0));
}

#[test]
fn exec_debug_string_quotes_empty_word() {
    let cmd = Exec::cmd("echo").arg("");
    assert_eq!(cmd.to_debug_string(), "Exec { echo '' }");
}

#[test]
fn capture_reports_exit_status() {
    let c = Exec::shell("printf foo; exit 3").capture().unwrap();
    assert_eq!(c.stdout_str(), "foo");
    assert_eq!(c.exit_status, ExitStatus::Exited(3));
}

#[test]
fn null_output_redirection() {
    let c = subprocess::Exec::cmd("sh")
        .arg("-c")
        .arg("echo kept; echo dropped >&2")
        .stderr(subprocess::NullFile)
        .capture()
        .unwrap();
    assert_eq!(c.stdout_str(), "kept\n");
    assert_eq!(c.stderr_str(), "");
    assert_eq!(c.exit_status, ExitStatus::Exited(0));
}

#[test]
fn wait_surfaces_os_error() {
    let mut p = Popen::create(&argv(&["true"]), PopenConfig::default()).unwrap();
    let pid = p.pid().unwrap();
    // Steal the reap behind the handle's back; the next wait then
    // fails with the OS error instead of inventing a status.
    nix::sys::wait::waitpid(nix::unistd::Pid::from_raw(pid as i32), None).unwrap();
    match p.wait() {
        Err(PopenError::IoError(code)) => assert_eq!(code, libc::ECHILD),
        other => panic!("expected an OS error, got ok={}", other.is_ok()),
    }
    p.detach();
}

#[test]
fn env_override_keeps_inherited_variables() {
    // PATH is inherited even though an unrelated variable is set.
    assert!(Exec::cmd("sh")
        .args(&["-c", r#"test -n "$PATH""#])
        .env("UNRELATED_VARIABLE", "x")
        .join()
        .unwrap()
        .success());
}

#[test]
fn env_later_override_wins() {
    assert!(Exec::cmd("sh")
        .args(&["-c", r#"test "$PICKED" = "second""#])
        .env("PICKED", "first")
        .env("PICKED", "second")
        .join()
        .unwrap()
        .success());
}

#[test]
fn capture_ignores_redirected_stdout() {
    let c = Exec::shell("echo gone")
        .stdout(subprocess::NullFile)
        .capture()
        .unwrap();
    assert_eq!(c.stdout_str(), "");
    assert_eq!(c.exit_status, ExitStatus::Exited(0));
}
