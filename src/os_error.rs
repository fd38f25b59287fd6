//! Errors reported by the operating system.
use vstd::prelude::*;

verus! {

/// A failed system call, carrying the code that the system gave for it
/// (`GetLastError` or `WSAGetLastError`).
#[derive(Debug, Clone, Copy, PartialEq, Eq, Structural)]
pub struct OsError {
    pub code: i32,
}

impl OsError {
    /// The error for the system error code `code`.
    pub fn from_raw_os_error(code: i32) -> (r: OsError)
        ensures
            r.code == code,
    {
        OsError { code }
    }

    /// The system error code.
    pub fn raw_os_error(&self) -> (r: i32)
        ensures
            r == self.code,
    {
        self.code
    }
}

} // verus!
