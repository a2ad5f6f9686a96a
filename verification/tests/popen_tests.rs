use subprocess::ExitStatus;
use subprocess::Popen;
use subprocess::PopenConfig;
use subprocess::Redirection;
use subprocess::pipes::read_to_end;

fn cfg(stdin: Redirection, stdout: Redirection, stderr: Redirection) -> PopenConfig {
    PopenConfig {
        stdin,
        stdout,
        stderr,
        ..PopenConfig::default()
    }
}

fn argv(words: &[&str]) -> Vec<String> {
    words.iter().map(|w| w.to_string()).collect()
}

#[test]
fn good_cmd() {
    let mut p = Popen::create(&argv(&["true"]), PopenConfig::default()).unwrap();
    assert!(p.wait().unwrap() == ExitStatus::Exited(0));
}

#[test]
fn bad_cmd() {
    let result = Popen::create(&argv(&["nosuchcommand"]), PopenConfig::default());
    assert!(result.is_err());
}

#[test]
fn err_exit() {
    let mut p = Popen::create(&argv(&["sh", "-c", "exit 13"]), PopenConfig::default()).unwrap();
    assert!(p.wait().unwrap() == ExitStatus::Exited(13));
}

#[test]
fn err_signal() {
    let mut p = Popen::create(&argv(&["sleep", "5"]), PopenConfig::default()).unwrap();
    assert!(p.poll().is_none());
    p.terminate().unwrap();
    assert!(p.wait().unwrap() == ExitStatus::Signaled(libc::SIGTERM as u8));
}

#[test]
fn read_from_stdout() {
    let mut p = Popen::create(
        &argv(&["echo", "foo"]),
        cfg(Redirection::Inherit, Redirection::Pipe, Redirection::Inherit),
    )
    .unwrap();
    let out = read_to_end(p.stdout.take().unwrap()).unwrap();
    assert!(String::from_utf8(out).unwrap() == "foo\n");
    assert!(p.wait().unwrap() == ExitStatus::Exited(0));
}

#[test]
fn communicate_output() {
    let mut p = Popen::create(
        &argv(&["sh", "-c", "echo foo; echo bar >&2"]),
        cfg(Redirection::Inherit, Redirection::Pipe, Redirection::Pipe),
    )
    .unwrap();
    if let (Some(out), Some(err)) = p.communicate_bytes(None).unwrap() {
        assert_eq!(out, b"foo\n");
        assert_eq!(err, b"bar\n");
    } else {
        assert!(false);
    }
    assert!(p.wait().unwrap() == ExitStatus::Exited(0));
}

#[test]
fn communicate_input_output() {
    let mut p = Popen::create(
        &argv(&["sh", "-c", "cat; echo foo >&2"]),
        cfg(Redirection::Pipe, Redirection::Pipe, Redirection::Pipe),
    )
    .unwrap();
    if let (Some(out), Some(err)) = p.communicate_bytes(Some(b"hello world")).unwrap() {
        assert!(out == b"hello world");
        assert!(err == b"foo\n");
    } else {
        assert!(false);
    }
    assert!(p.wait().unwrap() == ExitStatus::Exited(0));
}

#[test]
fn communicate_input_output_long() {
    let mut p = Popen::create(
        &argv(&["sh", "-c", "cat; printf '%100000s' '' >&2"]),
        cfg(Redirection::Pipe, Redirection::Pipe, Redirection::Pipe),
    )
    .unwrap();
    let input = [65u8; 1_000_000];
    if let (Some(out), Some(err)) = p.communicate_bytes(Some(&input)).unwrap() {
        assert!(&out[..] == &input[..]);
        assert!(&err[..] == &[32u8; 100_000][..]);
    } else {
        assert!(false);
    }
    assert!(p.wait().unwrap() == ExitStatus::Exited(0));
}

#[test]
fn communicate_input_output_str() {
    let mut p = Popen::create(
        &argv(&["sh", "-c", "cat; echo foo >&2"]),
        cfg(Redirection::Pipe, Redirection::Pipe, Redirection::Pipe),
    )
    .unwrap();
    if let (Some(out), Some(err)) = p.communicate(Some("hello world")).unwrap() {
        assert!(out == "hello world");
        assert!(err == "foo\n");
    } else {
        assert!(false);
    }
    assert!(p.wait().unwrap() == ExitStatus::Exited(0));
}

#[test]
fn err_terminate() {
    let mut p = Popen::create(&argv(&["sleep", "5"]), PopenConfig::default()).unwrap();
    assert!(p.poll().is_none());
    p.terminate().unwrap();
    assert!(p.wait().unwrap() == ExitStatus::Signaled(libc::SIGTERM as u8));
}
