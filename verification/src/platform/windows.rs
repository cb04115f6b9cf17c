//! The backend for hosts without an implementation. Every call fails with
//! an explicit "unsupported platform" error rather than silently returning
//! nothing, so callers can tell "no processes found" apart from "cannot
//! determine processes on this platform".

use vstd::prelude::*;
use crate::errors::KillportError;
use crate::process::ProcessInfo;
use crate::scanner::PortScanner;

verus! {

/// A scanner whose every operation reports that the platform is
/// unsupported.
pub struct WindowsScanner;

impl WindowsScanner {
    pub fn new() -> (r: Self) {
        WindowsScanner
    }
}

impl PortScanner for WindowsScanner {
    /// Always fails: there is no socket-table backend for this host, and
    /// the error names that, so callers can tell it from "nothing found".
    fn find_processes_by_port(&self, port: u16) -> (r: Result<Vec<ProcessInfo>, KillportError>)
        ensures
            r matches Err(KillportError::PlatformError(m)) && m@
                == "unsupported platform: no scanner backend for this host"@,
    {
        Err(KillportError::PlatformError(String::from_str(
            "unsupported platform: no scanner backend for this host",
        )))
    }

    /// Always fails: there is no socket-table backend for this host, and
    /// the error names that, so callers can tell it from "nothing found".
    fn find_all_listening(&self) -> (r: Result<Vec<ProcessInfo>, KillportError>)
        ensures
            r matches Err(KillportError::PlatformError(m)) && m@
                == "unsupported platform: no scanner backend for this host"@,
    {
        Err(KillportError::PlatformError(String::from_str(
            "unsupported platform: no scanner backend for this host",
        )))
    }
}

} // verus!
