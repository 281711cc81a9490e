//! Tests for the stdio redirection guard. These swap the process-wide
//! standard streams, so each test restores what it installed before
//! returning.

use std::io::BufRead;
use std::io::Write;

use cargo_credential::stdio::{stdin_stdout_to_console, ReplacementGuard, Stdio};

use rustix::fs::{open, seek, Mode, OFlags, SeekFrom};
use rustix::fd::OwnedFd;

fn temp_file(name: &str, content: &[u8]) -> OwnedFd {
    let path = format!("/tmp/{name}");
    let fd = open(
        path.as_str(),
        OFlags::CREATE | OFlags::RDWR | OFlags::TRUNC,
        Mode::from_raw_mode(0o600),
    )
    .unwrap();
    rustix::io::write(&fd, content).unwrap();
    seek(&fd, SeekFrom::Start(0)).unwrap();
    fd
}

#[test]
fn stdin() {
    let file = temp_file("cargo_credential_stdin", b"hello\n");
    let guard = ReplacementGuard::new(Stdio::Stdin, &file).unwrap();
    let line = std::io::stdin().lines().next().unwrap().unwrap();
    assert_eq!(line, "hello");
    guard.restore().unwrap();
}

#[test]
fn restores_stdin_binding() {
    let file = temp_file("cargo_credential_restore_in", b"sentinel-line\n");
    let guard = ReplacementGuard::new(Stdio::Stdin, &file).unwrap();
    // While the outer replacement is active, the guarded operation sees the
    // console (or null) device, not our file ...
    let ran = stdin_stdout_to_console(|| 41 + 1).unwrap();
    assert_eq!(ran, 42);
    // ... and afterwards standard input is bound to exactly what it was
    // bound to before: our sentinel file.
    let line = std::io::stdin().lines().next().unwrap().unwrap();
    assert_eq!(line, "sentinel-line");
    guard.restore().unwrap();
}

#[test]
fn restores_stdout_binding() {
    let file = temp_file("cargo_credential_restore_out", b"");
    let guard = ReplacementGuard::new(Stdio::Stdout, &file).unwrap();
    stdin_stdout_to_console(|| ()).unwrap();
    // After the redirection ends, standard output is our file again.
    let mut out = std::io::stdout();
    out.write_all(b"sentinel-out\n").unwrap();
    out.flush().unwrap();
    guard.restore().unwrap();
    seek(&file, SeekFrom::Start(0)).unwrap();
    let mut buf = [0u8; 64];
    let n = rustix::io::read(&file, &mut buf[..]).unwrap();
    assert_eq!(&buf[..n], b"sentinel-out\n");
}

#[test]
fn restores_after_failing_operation() {
    let file = temp_file("cargo_credential_restore_err", b"still-here\n");
    let guard = ReplacementGuard::new(Stdio::Stdin, &file).unwrap();
    // A protected operation that fails: restoration happens all the same.
    let failed: Result<Result<u8, &str>, _> = stdin_stdout_to_console(|| Err("aborted"));
    assert_eq!(failed.unwrap(), Err("aborted"));
    let line = std::io::stdin().lines().next().unwrap().unwrap();
    assert_eq!(line, "still-here");
    guard.restore().unwrap();
}

#[test]
fn falls_back_to_null_device() {
    // When no terminal is attached, the guard falls back to the null device
    // and the operation still runs: reads see immediate end-of-input and
    // writes are discarded. Only probe reads when no terminal is attached,
    // lest the test block waiting on a real one.
    let no_tty = open("/dev/tty", OFlags::RDONLY, Mode::empty()).is_err();
    let read_len = stdin_stdout_to_console(move || {
        let mut sink = std::io::stdout();
        sink.write_all(b"discarded prompt\n").unwrap();
        sink.flush().unwrap();
        if no_tty {
            let mut line = String::new();
            std::io::stdin().lock().read_line(&mut line).unwrap()
        } else {
            0
        }
    })
    .unwrap();
    assert_eq!(read_len, 0);
}

#[test]
fn guard_replaces_and_restores_repeatedly() {
    for round in 0..3u8 {
        let text = format!("round-{round}\n");
        let file = temp_file("cargo_credential_rounds", text.as_bytes());
        let guard = ReplacementGuard::new(Stdio::Stdin, &file).unwrap();
        let line = std::io::stdin().lines().next().unwrap().unwrap();
        assert_eq!(line, format!("round-{round}"));
        guard.restore().unwrap();
    }
}

#[test]
fn drop_reinstalls_captured_binding() {
    // A guard dropped without an explicit restore (as happens when a
    // protected operation unwinds) reinstalls the binding it captured.
    let outer = temp_file("cargo_credential_drop_outer", b"outer\n");
    let guard_outer = ReplacementGuard::new(Stdio::Stdin, &outer).unwrap();
    let inner = temp_file("cargo_credential_drop_inner", b"inner\n");
    let guard_inner = ReplacementGuard::new(Stdio::Stdin, &inner).unwrap();
    std::mem::drop(guard_inner);
    let line = std::io::stdin().lines().next().unwrap().unwrap();
    assert_eq!(line, "outer");
    guard_outer.restore().unwrap();
}
