//! Credential-helper core: deterministic construction of credential-store
//! keys and records, translation of store outcomes into the library's error
//! taxonomy, and a scoped guard that redirects the process's standard
//! streams to the terminal and restores them afterwards.

pub mod stdio;
pub mod store;
mod sys;
pub mod wide;

use vstd::prelude::*;

verus! {

/// Errors surfaced by the credential operations and the stdio guard.
#[derive(Clone, Copy, PartialEq, Eq, Structural, Debug)]
pub enum Error {
    /// The credential facility refused a read/write/delete; carries the OS error code.
    StoreAccess { code: u32 },
    /// Stored secret bytes are not valid UTF-8 where text is required.
    Encoding,
    /// Neither the terminal device nor the null fallback could be opened;
    /// reported before any stream is touched.
    DeviceUnavailable { code: i32 },
    /// The current binding of a standard stream could not be captured;
    /// reported before any stream is touched.
    StreamCapture { code: i32 },
    /// A replacement device could not be installed as a standard stream.
    StreamInstall { code: i32 },
    /// A previously captured stream binding could not be reinstalled. Fatal:
    /// no well-defined state exists downstream of a corrupted standard
    /// stream.
    RestoreFailure { code: i32 },
}

} // verus!
