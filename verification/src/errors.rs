//! Error taxonomy for scans and kill attempts.

use vstd::prelude::*;

verus! {

/// Everything that can go wrong while parsing port tokens, scanning the
/// host's socket tables, or signalling a process.
#[derive(Debug)]
pub enum KillportError {
    /// A single-port token whose value is outside 1..=65535, or is not a
    /// number at all (then the value reads 0); carries the offending token.
    InvalidPort(u32, String),
    /// A malformed range token; the payload describes the offending input.
    InvalidPortRange(String),
    /// Nothing is bound to the port.
    NoProcessFound { port: u16 },
    /// A kill attempt failed outright.
    KillFailed { pid: u32, name: String, reason: String },
    /// The caller lacks the privilege to signal the process.
    PermissionDenied { pid: u32, name: String },
    /// The host's kernel state could not be read at all, or the platform has
    /// no scanner implementation.
    PlatformError(String),
}

/// The input token an input error names; empty for errors not about one
/// token.
pub open spec fn offending_token(e: KillportError) -> Seq<char> {
    match e {
        KillportError::InvalidPort(_, t) => t@,
        KillportError::InvalidPortRange(t) => t@,
        _ => Seq::empty(),
    }
}

/// The message each error reports.
pub open spec fn error_message(e: KillportError) -> Seq<char> {
    match e {
        KillportError::InvalidPort(_, t) => "invalid port: "@ + t@,
        KillportError::InvalidPortRange(s) => "invalid port range: "@ + s@,
        KillportError::NoProcessFound { port: _ } => "no process found on port"@,
        KillportError::KillFailed { pid: _, name, reason } => "failed to kill process "@ + name@
            + ": "@ + reason@,
        KillportError::PermissionDenied { pid: _, name } => {
            "permission denied: cannot kill process "@ + name@ + ". Try running with sudo"@
        },
        KillportError::PlatformError(s) => "platform error: "@ + s@,
    }
}

impl KillportError {
    /// A short human-readable description of the error.
    pub fn message(&self) -> (r: String)
        ensures
            r@ == error_message(*self),
    {
        match self {
            KillportError::InvalidPort(_, t) => {
                let mut m = String::from_str("invalid port: ");
                m.append(t.as_str());
                m
            },
            KillportError::InvalidPortRange(s) => {
                let mut m = String::from_str("invalid port range: ");
                m.append(s.as_str());
                m
            },
            KillportError::NoProcessFound { port: _ } => String::from_str("no process found on port"),
            KillportError::KillFailed { pid: _, name, reason } => {
                let mut m = String::from_str("failed to kill process ");
                m.append(name.as_str());
                m.append(": ");
                m.append(reason.as_str());
                m
            },
            KillportError::PermissionDenied { pid: _, name } => {
                let mut m = String::from_str("permission denied: cannot kill process ");
                m.append(name.as_str());
                m.append(". Try running with sudo");
                m
            },
            KillportError::PlatformError(s) => {
                let mut m = String::from_str("platform error: ");
                m.append(s.as_str());
                m
            },
        }
    }
}

} // verus!
