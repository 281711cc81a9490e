//! Trusted bindings to the host's descriptor facilities.
//!
//! Each function wraps exactly one OS call, relied on as its documentation
//! and source describe it. Errors are carried as raw OS error codes. Nothing
//! is promised about the process-wide stream state these calls read or
//! change; the callers state what holds of every outcome.

use vstd::prelude::*;

verus! {

/// The process-wide stream bindings live in the OS; values of this type own
/// duplicated descriptors for them.
#[verifier::external_type_specification]
#[verifier::external_body]
pub struct ExOwnedFd(rustix::fd::OwnedFd);

/// Relies on rustix::fs::open with read-only flags: opens the named device
/// for reading, or reports the OS error.
#[verifier::external_body]
pub(crate) fn open_read(path: &str) -> (r: Result<rustix::fd::OwnedFd, i32>) {
    rustix::fs::open(path, rustix::fs::OFlags::RDONLY, rustix::fs::Mode::empty())
        .map_err(|e| e.raw_os_error())
}

/// Relies on rustix::fs::open with write-only flags: opens the named device
/// for writing, or reports the OS error.
#[verifier::external_body]
pub(crate) fn open_write(path: &str) -> (r: Result<rustix::fd::OwnedFd, i32>) {
    rustix::fs::open(path, rustix::fs::OFlags::WRONLY, rustix::fs::Mode::empty())
        .map_err(|e| e.raw_os_error())
}

/// Relies on rustix::io::dup applied to the standard input descriptor:
/// returns a new owned descriptor for standard input's current open file,
/// changing no stream binding.
#[verifier::external_body]
pub(crate) fn capture_stdin() -> (r: Result<rustix::fd::OwnedFd, i32>) {
    rustix::io::dup(rustix::stdio::stdin()).map_err(|e| e.raw_os_error())
}

/// Relies on rustix::io::dup applied to the standard output descriptor:
/// returns a new owned descriptor for standard output's current open file,
/// changing no stream binding.
#[verifier::external_body]
pub(crate) fn capture_stdout() -> (r: Result<rustix::fd::OwnedFd, i32>) {
    rustix::io::dup(rustix::stdio::stdout()).map_err(|e| e.raw_os_error())
}

/// Relies on rustix::stdio::dup2_stdin: installs the given descriptor's open
/// file as the process's standard input; on failure the binding is unchanged.
/// Does not unwind: rustix's dup2 makes one system call and cannot panic.
#[verifier::external_body]
pub(crate) fn install_stdin(fd: &rustix::fd::OwnedFd) -> (r: Result<(), i32>)
    opens_invariants none
    no_unwind
{
    rustix::stdio::dup2_stdin(fd).map_err(|e| e.raw_os_error())
}

/// Relies on rustix::stdio::dup2_stdout: installs the given descriptor's open
/// file as the process's standard output; on failure the binding is
/// unchanged. Does not unwind: rustix's dup2 makes one system call and
/// cannot panic.
#[verifier::external_body]
pub(crate) fn install_stdout(fd: &rustix::fd::OwnedFd) -> (r: Result<(), i32>)
    opens_invariants none
    no_unwind
{
    rustix::stdio::dup2_stdout(fd).map_err(|e| e.raw_os_error())
}

} // verus!
