//! Stdio redirection guard.
//!
//! Temporarily rebinds the process's standard input and output to the
//! attached terminal — or to the null device when no terminal is available —
//! for the duration of a protected operation, and reinstalls the previous
//! bindings before returning, in reverse order of installation.
//!
//! Restoration is guaranteed on every exit path: the normal return path
//! reinstalls explicitly and reports a failed reinstall as
//! [`Error::RestoreFailure`]; if the protected operation unwinds, the guards'
//! drop reinstalls the captured bindings as a backstop (nothing can be
//! surfaced from there). Every decision taken over an OS call's outcome —
//! the terminal-to-null fallback, the error of each stage, the rollback when
//! only one binding was installed, and the precedence of restoration
//! failures — is made by a contracted decision function in this module.
//!
//! The bindings changed here are process-wide: while a redirection is
//! active, every part of the process observes it, so no other
//! standard-stream-dependent work should run concurrently. At most one
//! redirection per role may be active at a time; nested redirection of the
//! same role is not supported. If the protected operation never returns,
//! restoration never happens.

use vstd::prelude::*;
use crate::Error;
use crate::sys::{capture_stdin, capture_stdout, install_stdin, install_stdout, open_read, open_write};

verus! {

/// A standard stream role.
#[derive(Clone, Copy, PartialEq, Eq, Structural, Debug)]
pub enum Stdio {
    Stdin,
    Stdout,
}

/// Decides a capture's result: the captured binding is handed on unchanged,
/// and a failure is a capture error carrying the OS code — reported before
/// anything was installed.
pub fn capture_outcome(captured: Result<rustix::fd::OwnedFd, i32>) -> (r: Result<
    rustix::fd::OwnedFd,
    Error,
>)
    ensures
        captured matches Ok(fd) ==> r == Result::<rustix::fd::OwnedFd, Error>::Ok(fd),
        captured matches Err(code) ==> r == Result::<rustix::fd::OwnedFd, Error>::Err(
            Error::StreamCapture { code },
        ),
{
    match captured {
        Result::Ok(fd) => Result::Ok(fd),
        Result::Err(code) => Result::Err(Error::StreamCapture { code }),
    }
}

/// Decides the replacement device from the fallback open's outcome, reached
/// only after the terminal device could not be opened: when the null device
/// opened, it is used and no device error is raised; when even the null
/// device failed, the whole call is refused with that error, before any
/// stream is touched.
pub fn fallback_open(fallback: Result<rustix::fd::OwnedFd, i32>) -> (r: Result<
    rustix::fd::OwnedFd,
    Error,
>)
    ensures
        fallback matches Ok(fd) ==> r == Result::<rustix::fd::OwnedFd, Error>::Ok(fd),
        fallback matches Err(code) ==> r == Result::<rustix::fd::OwnedFd, Error>::Err(
            Error::DeviceUnavailable { code },
        ),
{
    match fallback {
        Result::Ok(fd) => Result::Ok(fd),
        Result::Err(code) => Result::Err(Error::DeviceUnavailable { code }),
    }
}

/// Decides an installation's result: a failure is an install error carrying
/// the OS code.
pub fn install_outcome(installed: Result<(), i32>) -> (r: Result<(), Error>)
    ensures
        installed is Ok ==> r == Result::<(), Error>::Ok(()),
        installed matches Err(code) ==> r == Result::<(), Error>::Err(
            Error::StreamInstall { code },
        ),
{
    match installed {
        Result::Ok(_) => Result::Ok(()),
        Result::Err(code) => Result::Err(Error::StreamInstall { code }),
    }
}

/// Decides a restoration's result: a failed reinstall of a captured binding
/// is a restore failure carrying the OS code, never anything milder.
pub fn restore_outcome(reinstalled: Result<(), i32>) -> (r: Result<(), Error>)
    ensures
        reinstalled is Ok ==> r == Result::<(), Error>::Ok(()),
        reinstalled matches Err(code) ==> r == Result::<(), Error>::Err(
            Error::RestoreFailure { code },
        ),
{
    match reinstalled {
        Result::Ok(_) => Result::Ok(()),
        Result::Err(code) => Result::Err(Error::RestoreFailure { code }),
    }
}

/// Decides the error reported when installing the output binding failed and
/// the already-installed input binding was rolled back: when the rollback
/// succeeded the install error stands; a rollback failure is a restore
/// failure and outranks it.
pub fn install_failure(code: i32, rollback: Result<(), Error>) -> (e: Error)
    ensures
        rollback is Ok ==> e == (Error::StreamInstall { code }),
        rollback matches Err(re) ==> e == re,
{
    match rollback {
        Result::Ok(_) => Error::StreamInstall { code },
        Result::Err(re) => re,
    }
}

/// Decides the call's result from both restorations and the operation's
/// result: a restoration failure is never swallowed — it takes precedence
/// over the operation's result, the output's failure first — and only when
/// both bindings were reinstalled is the operation's result returned.
pub fn finish_restore<T>(
    restored_out: Result<(), Error>,
    restored_in: Result<(), Error>,
    result: T,
) -> (r: Result<T, Error>)
    ensures
        restored_out matches Err(e) ==> r == Result::<T, Error>::Err(e),
        restored_out is Ok ==> (restored_in matches Err(e) ==> r == Result::<T, Error>::Err(e)),
        restored_out is Ok && restored_in is Ok ==> r == Result::<T, Error>::Ok(result),
{
    match restored_out {
        Result::Err(e) => Result::Err(e),
        Result::Ok(_) => match restored_in {
            Result::Err(e) => Result::Err(e),
            Result::Ok(_) => Result::Ok(result),
        },
    }
}

/// A scoped replacement of one standard stream. Construction captures the
/// stream's current binding and installs the replacement; [`restore`]
/// reinstalls the captured binding and consumes the guard, so a binding can
/// never be reused after restoration. A guard dropped without `restore` —
/// which happens only when a protected operation unwinds — reinstalls the
/// captured binding as a backstop.
///
/// [`restore`]: ReplacementGuard::restore
pub struct ReplacementGuard {
    stdio: Stdio,
    previous: Option<rustix::fd::OwnedFd>,
}

impl ReplacementGuard {
    /// The role this guard replaced.
    pub closed spec fn role(&self) -> Stdio {
        self.stdio
    }

    /// An unconsumed guard still holds the binding it captured.
    pub closed spec fn armed(&self) -> bool {
        self.previous is Some
    }

    /// Wraps an already-captured binding; nothing is installed here.
    fn from_captured(stdio: Stdio, previous: rustix::fd::OwnedFd) -> (g: ReplacementGuard)
        ensures
            g.role() == stdio,
            g.armed(),
    {
        ReplacementGuard { stdio, previous: Option::Some(previous) }
    }

    /// Captures the current binding of the given role, then installs
    /// `replacement` as that role's binding. Capture happens strictly first:
    /// if it fails, nothing was installed and [`capture_outcome`] decides the
    /// error; if installation fails, the binding is unchanged and
    /// [`install_outcome`] decides the error.
    pub fn new(stdio: Stdio, replacement: &rustix::fd::OwnedFd) -> (r: Result<ReplacementGuard,
        Error>)
        ensures
            r matches Ok(g) ==> g.role() == stdio && g.armed(),
            r matches Err(e) ==> (e matches Error::StreamCapture { .. } || e matches
                Error::StreamInstall { .. }),
    {
        let captured = match stdio {
            Stdio::Stdin => capture_stdin(),
            Stdio::Stdout => capture_stdout(),
        };
        let previous = match capture_outcome(captured) {
            Result::Ok(fd) => fd,
            Result::Err(e) => {
                return Result::Err(e);
            },
        };
        let guard = ReplacementGuard::from_captured(stdio, previous);
        let installed = match stdio {
            Stdio::Stdin => install_stdin(replacement),
            Stdio::Stdout => install_stdout(replacement),
        };
        match install_outcome(installed) {
            Result::Ok(_) => Result::Ok(guard),
            // The stream was not replaced; dropping the guard reinstalls the
            // binding it already has, a harmless no-op.
            Result::Err(e) => Result::Err(e),
        }
    }

    /// Reinstalls the binding captured at construction and consumes the
    /// guard; [`restore_outcome`] decides the result, so a failure is
    /// reported as a restore failure, never swallowed.
    pub fn restore(self) -> (r: Result<(), Error>)
        requires
            self.armed(),
        ensures
            r matches Err(e) ==> e matches Error::RestoreFailure { .. },
    {
        let mut guard = self;
        let previous = guard.previous.take();
        match previous {
            Option::Some(fd) => {
                let reinstalled = match guard.stdio {
                    Stdio::Stdin => install_stdin(&fd),
                    Stdio::Stdout => install_stdout(&fd),
                };
                restore_outcome(reinstalled)
            },
            Option::None => {
                proof {
                    assert(false);
                }
                Result::Ok(())
            },
        }
    }
}

impl Drop for ReplacementGuard {
    /// Unwind backstop: a guard dropped while still armed reinstalls the
    /// captured binding. Nothing can be surfaced from a drop, so a failed
    /// reinstall is not reported here; the explicit [`ReplacementGuard::restore`]
    /// on the normal path is what reports failures.
    fn drop(&mut self)
        opens_invariants none
        no_unwind
    {
        match &self.previous {
            Option::Some(fd) => {
                let reinstalled = match self.stdio {
                    Stdio::Stdin => install_stdin(fd),
                    Stdio::Stdout => install_stdout(fd),
                };
                match reinstalled {
                    Result::Ok(_) => {},
                    Result::Err(_) => {},
                }
            },
            Option::None => {},
        }
    }
}

/// Runs `f` with standard input and output rebound to the attached terminal,
/// falling back to the null device when the terminal cannot be opened, and
/// reinstalls the previous bindings before returning.
///
/// Order of operations: both devices are opened ([`fallback_open`] decides
/// the fallback), then both current bindings are captured
/// ([`capture_outcome`]) — a capture failure aborts before any stream is
/// touched — and only then is anything installed, input first, output
/// second. If the output install fails after the input was replaced, the
/// input binding is rolled back and [`install_failure`] decides the error.
/// Restoration runs in reverse order of installation, output first, and
/// [`finish_restore`] decides the result: a restoration failure is reported
/// rather than swallowed, taking precedence over the operation's own result.
/// Should the operation unwind instead of returning, the guards' drop
/// reinstalls both captured bindings.
///
/// On success the returned value is a result of the operation itself; an
/// error is always one of the stream-handling failures, never a credential
/// error.
pub fn stdin_stdout_to_console<T, F: FnOnce() -> T>(f: F) -> (r: Result<T, Error>)
    requires
        call_requires(f, ()),
    ensures
        r matches Ok(t) ==> call_ensures(f, (), t),
        r matches Err(e) ==> (e matches Error::DeviceUnavailable { .. } || e matches
            Error::StreamCapture { .. } || e matches Error::StreamInstall { .. } || e matches
            Error::RestoreFailure { .. }),
{
    // The canonical terminal device, readable and writable; "/dev/null" as
    // the fallback when no terminal is attached.
    let replacement_in = match open_read("/dev/tty") {
        Result::Ok(fd) => fd,
        Result::Err(_) => match fallback_open(open_read("/dev/null")) {
            Result::Ok(fd) => fd,
            Result::Err(e) => {
                return Result::Err(e);
            },
        },
    };
    let replacement_out = match open_write("/dev/tty") {
        Result::Ok(fd) => fd,
        Result::Err(_) => match fallback_open(open_write("/dev/null")) {
            Result::Ok(fd) => fd,
            Result::Err(e) => {
                return Result::Err(e);
            },
        },
    };
    // Capture both current bindings before installing anything, so that a
    // capture failure leaves every stream untouched.
    let previous_in = match capture_outcome(capture_stdin()) {
        Result::Ok(fd) => fd,
        Result::Err(e) => {
            return Result::Err(e);
        },
    };
    let previous_out = match capture_outcome(capture_stdout()) {
        Result::Ok(fd) => fd,
        Result::Err(e) => {
            return Result::Err(e);
        },
    };
    // From here the guards own the captured bindings: every exit path below,
    // including an unwind out of `f`, reinstalls them.
    let guard_in = ReplacementGuard::from_captured(Stdio::Stdin, previous_in);
    let guard_out = ReplacementGuard::from_captured(Stdio::Stdout, previous_out);
    // Install input first, output second; restoration below reverses this.
    match install_outcome(install_stdin(&replacement_in)) {
        Result::Ok(_) => {},
        Result::Err(e) => {
            // Nothing was replaced; the guards' drop reinstalls the bindings
            // they captured, a harmless no-op.
            return Result::Err(e);
        },
    }
    match install_stdout(&replacement_out) {
        Result::Ok(_) => {},
        Result::Err(code) => {
            // Roll the already-installed input binding back; install_failure
            // decides whether the install error or a rollback failure is
            // reported.
            let rollback = guard_in.restore();
            return Result::Err(install_failure(code, rollback));
        },
    }
    let result = f();
    // Reinstall the captured bindings unconditionally, in reverse order of
    // installation; both are attempted, and finish_restore decides the
    // result.
    let restored_out = guard_out.restore();
    let restored_in = guard_in.restore();
    finish_restore(restored_out, restored_in, result)
}

} // verus!
