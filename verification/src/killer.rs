//! The termination state machine: one attempt per process, graceful first,
//! escalating to an unconditional kill after a timeout.
//!
//! Every attempt is folded into a [`KillResult`]; failures never propagate
//! as hard errors, so an attempt on one process cannot prevent attempts on
//! the rest.

use vstd::prelude::*;
use crate::process::{KillResult, KillSignal, ProcessInfo, signal_label};

verus! {

/// The largest process identifier the platform's native signed integer can
/// carry; signalling functions take pids below this bound.
pub const MAX_PID: u32 = 0x7fff_ffff;

/// Immutable policy for one invocation's kill attempts: which signal to
/// send, whether to escalate gracefully, how long to wait before
/// escalating, and whether to only pretend.
#[derive(Debug, Clone, Copy, PartialEq, Eq, Structural)]
pub struct KillConfig {
    /// The signal sent in non-graceful mode. Graceful mode always opens
    /// with the polite terminate signal and ignores this field for the
    /// first phase.
    pub signal: KillSignal,
    /// Send the terminate signal first and give the target time to exit.
    pub graceful: bool,
    /// How long the graceful phase may last, in milliseconds.
    pub graceful_timeout_ms: u64,
    /// Report what would be done without sending any signal.
    pub dry_run: bool,
}

impl Default for KillConfig {
    /// The default policy: graceful terminate with a five-second timeout.
    fn default() -> (r: Self)
        ensures
            r.signal == KillSignal::Term,
            r.graceful,
            r.graceful_timeout_ms == 5000,
            !r.dry_run,
    {
        KillConfig { signal: KillSignal::Term, graceful: true, graceful_timeout_ms: 5000, dry_run: false }
    }
}

/// How a signal send can fail, told apart as far as the caller's report
/// needs: no privilege, target gone, or anything else.
#[derive(Debug)]
pub enum SendError {
    PermissionDenied,
    NoSuchProcess,
    Other(String),
}

/// The failure message reported for a send error.
pub open spec fn send_error_message(e: SendError) -> Seq<char> {
    match e {
        SendError::PermissionDenied => "permission denied. Try running with sudo"@,
        SendError::NoSuchProcess => "process no longer exists"@,
        SendError::Other(m) => m@,
    }
}

/// The label of a dry-run attempt: the configured signal, marked as not
/// actually sent.
pub open spec fn dry_run_label(s: KillSignal) -> Seq<char> {
    signal_label(s) + " (dry-run)"@
}

/// The label of an attempt whose target turned out to be gone already.
pub open spec fn vanished_label(s: KillSignal) -> Seq<char> {
    signal_label(s) + " (process vanished)"@
}

/// The label of a graceful attempt that had to escalate.
pub open spec fn escalation_label() -> Seq<char> {
    signal_label(KillSignal::Term) + " -> "@ + signal_label(KillSignal::Kill)
}

/// Relies on nix::sys::signal::kill to ask the kernel to deliver `signal`
/// to `pid`; EPERM and ESRCH are told apart from every other error.
#[verifier::external_body]
fn send_signal(pid: u32, signal: KillSignal) -> (r: Result<(), SendError>)
    requires
        pid <= MAX_PID,
{
    let s = match signal {
        KillSignal::Term => nix::sys::signal::Signal::SIGTERM,
        KillSignal::Kill => nix::sys::signal::Signal::SIGKILL,
        KillSignal::Int => nix::sys::signal::Signal::SIGINT,
        KillSignal::Hup => nix::sys::signal::Signal::SIGHUP,
    };
    match nix::sys::signal::kill(nix::unistd::Pid::from_raw(pid as i32), s) {
        Ok(()) => Ok(()),
        Err(nix::errno::Errno::EPERM) => Err(SendError::PermissionDenied),
        Err(nix::errno::Errno::ESRCH) => Err(SendError::NoSuchProcess),
        Err(e) => Err(SendError::Other(e.desc().to_owned())),
    }
}

/// Relies on nix::sys::signal::kill with no signal (the null probe): Ok
/// when the target exists and may be signalled; EPERM and ESRCH are told
/// apart from every other error, as in [`send_signal`].
#[verifier::external_body]
fn probe_process(pid: u32) -> (r: Result<(), SendError>)
    requires
        pid <= MAX_PID,
{
    match nix::sys::signal::kill(nix::unistd::Pid::from_raw(pid as i32), None) {
        Ok(()) => Ok(()),
        Err(nix::errno::Errno::EPERM) => Err(SendError::PermissionDenied),
        Err(nix::errno::Errno::ESRCH) => Err(SendError::NoSuchProcess),
        Err(e) => Err(SendError::Other(e.desc().to_owned())),
    }
}

/// The conservative liveness reading of one probe outcome: only "target
/// does not exist" reads as dead. A successful probe means the target
/// exists; permission denied means it exists but cannot be signalled; any
/// other report also reads as still alive, so a poll loop never reports an
/// exit it did not observe.
pub open spec fn probe_reads_alive(probe: Result<(), SendError>) -> bool {
    !(probe matches Err(SendError::NoSuchProcess))
}

/// Decides liveness from one probe outcome, by the conservative reading.
pub fn liveness_from_probe(probe: Result<(), SendError>) -> (r: bool)
    ensures
        r == probe_reads_alive(probe),
{
    match probe {
        Err(SendError::NoSuchProcess) => false,
        _ => true,
    }
}

/// Probes the target once and reads the outcome conservatively.
fn is_process_alive(pid: u32) -> (r: bool)
    requires
        pid <= MAX_PID,
{
    liveness_from_probe(probe_process(pid))
}

/// Relies on std::sync::mpsc::Receiver::recv_timeout to block the calling
/// thread for about `ms` milliseconds; nothing ever sends on the channel,
/// so the call returns only when the timeout passes.
#[verifier::external_body]
fn sleep_ms(ms: u64) {
    let (_tx, rx) = std::sync::mpsc::channel::<()>();
    let _ = rx.recv_timeout(core::time::Duration::from_millis(ms));
}

#[verifier::external_type_specification]
#[verifier::external_body]
pub struct ExInstant(std::time::Instant);

/// Relies on std::time::Instant::now for a monotonic timestamp.
#[verifier::external_body]
fn monotonic_now() -> (r: std::time::Instant) {
    std::time::Instant::now()
}

/// Relies on std::time::Instant::elapsed: whole milliseconds passed since
/// `start` was taken.
#[verifier::external_body]
fn elapsed_ms(start: &std::time::Instant) -> (r: u64) {
    start.elapsed().as_millis() as u64
}

/// Result of a dry-run attempt: always a success whose label says no
/// signal was actually sent.
pub fn dry_run_result(process: &ProcessInfo, signal: KillSignal) -> (r: KillResult)
    ensures
        r.process == *process,
        r.success,
        r.signal_sent@ == dry_run_label(signal),
        r.error is None,
{
    let mut label = String::from_str(signal.label());
    label.append(" (dry-run)");
    KillResult { process: process.clone(), success: true, signal_sent: label, error: None }
}

/// Folds the outcome of sending `signal` once into a result record: a
/// success on delivery, a success marked "vanished" when the target no
/// longer exists, and a failure carrying the reason otherwise.
pub fn send_outcome(process: &ProcessInfo, signal: KillSignal, send: Result<(), SendError>) -> (r:
    KillResult)
    ensures
        r.process == *process,
        r.success <==> r.error is None,
        send matches Ok(_) ==> r.success && r.signal_sent@ == signal_label(signal),
        send matches Err(e) ==> {
            &&& e is NoSuchProcess ==> r.success && r.signal_sent@ == vanished_label(signal)
            &&& !(e is NoSuchProcess) ==> !r.success && r.signal_sent@ == signal_label(signal) && (
            r.error matches Some(m) && m@ == send_error_message(e))
        },
{
    match send {
        Ok(_) => KillResult {
            process: process.clone(),
            success: true,
            signal_sent: String::from_str(signal.label()),
            error: None,
        },
        Err(SendError::NoSuchProcess) => {
            let mut label = String::from_str(signal.label());
            label.append(" (process vanished)");
            KillResult { process: process.clone(), success: true, signal_sent: label, error: None }
        },
        Err(SendError::PermissionDenied) => KillResult {
            process: process.clone(),
            success: false,
            signal_sent: String::from_str(signal.label()),
            error: Some(String::from_str("permission denied. Try running with sudo")),
        },
        Err(SendError::Other(m)) => KillResult {
            process: process.clone(),
            success: false,
            signal_sent: String::from_str(signal.label()),
            error: Some(m),
        },
    }
}

/// Result of a graceful attempt whose target exited within the timeout:
/// a success labelled with the terminate signal alone, never the
/// escalation path.
pub fn term_exit_result(process: &ProcessInfo) -> (r: KillResult)
    ensures
        r.process == *process,
        r.success,
        r.signal_sent@ == signal_label(KillSignal::Term),
        r.error is None,
{
    KillResult {
        process: process.clone(),
        success: true,
        signal_sent: String::from_str(KillSignal::Term.label()),
        error: None,
    }
}

/// Folds the outcome of the escalation send (the unconditional kill after
/// the timeout) into a result record: on delivery a success labelled with
/// the full escalation path; a target already gone is a success marked
/// "vanished"; any other failure carries its reason.
pub fn escalation_outcome(process: &ProcessInfo, send: Result<(), SendError>) -> (r: KillResult)
    ensures
        r.process == *process,
        r.success <==> r.error is None,
        send matches Ok(_) ==> r.success && r.signal_sent@ == escalation_label(),
        send matches Err(e) ==> {
            &&& e is NoSuchProcess ==> r.success && r.signal_sent@ == vanished_label(
                KillSignal::Kill,
            )
            &&& !(e is NoSuchProcess) ==> !r.success && r.signal_sent@ == signal_label(
                KillSignal::Kill,
            ) && (r.error matches Some(m) && m@ == send_error_message(e))
        },
{
    match send {
        Ok(_) => {
            let mut label = String::from_str(KillSignal::Term.label());
            label.append(" -> ");
            label.append(KillSignal::Kill.label());
            KillResult { process: process.clone(), success: true, signal_sent: label, error: None }
        },
        Err(e) => send_outcome(process, KillSignal::Kill, Err(e)),
    }
}

/// Polls liveness every 100ms until the target is observed gone or
/// `timeout_ms` of wall-clock time has passed since `start`; returns true
/// when the target was observed gone. The iteration count is additionally
/// bounded so the loop provably ends even if the clock stalls.
fn wait_for_exit(pid: u32, timeout_ms: u64) -> (exited: bool)
    requires
        pid <= MAX_PID,
{
    let start = monotonic_now();
    let max_polls: u64 = timeout_ms / 100 + 2;
    let mut polls: u64 = 0;
    while polls < max_polls
        invariant
            pid <= MAX_PID,
        decreases max_polls - polls,
    {
        if elapsed_ms(&start) >= timeout_ms {
            return false;
        }
        if !is_process_alive(pid) {
            return true;
        }
        sleep_ms(100);
        polls = polls + 1;
    }
    false
}

/// Applies `config` to one observed process and reports the outcome.
///
/// Dry-run reports success without sending anything. Non-graceful mode
/// sends the configured signal exactly once. Graceful mode always opens
/// with the terminate signal, polls liveness at a fixed 100ms interval
/// until the target exits or the timeout passes, and then escalates to the
/// unconditional kill signal. A target that no longer exists is reported
/// as a success marked "vanished", never as a hard failure, so a second
/// call on an already-dead process is harmless.
pub fn kill_process(process: &ProcessInfo, config: &KillConfig) -> (r: KillResult)
    requires
        process.pid <= MAX_PID,
    ensures
        r.process == *process,
        r.success <==> r.error is None,
        config.dry_run ==> r.success && r.signal_sent@ == dry_run_label(config.signal),
        !config.dry_run && !config.graceful ==> r.signal_sent@ == signal_label(config.signal)
            || (r.success && r.signal_sent@ == vanished_label(config.signal)),
        !config.dry_run && config.graceful && r.success ==> r.signal_sent@ == signal_label(
            KillSignal::Term,
        ) || r.signal_sent@ == escalation_label() || r.signal_sent@ == vanished_label(
            KillSignal::Term,
        ) || r.signal_sent@ == vanished_label(KillSignal::Kill),
        !config.dry_run && config.graceful && !r.success ==> r.signal_sent@ == signal_label(
            KillSignal::Term,
        ) || r.signal_sent@ == signal_label(KillSignal::Kill),
{
    if config.dry_run {
        return dry_run_result(process, config.signal);
    }
    if !config.graceful {
        let send = send_signal(process.pid, config.signal);
        return send_outcome(process, config.signal, send);
    }
    // Graceful phase: always the polite terminate signal, whatever the
    // configured one; the configured signal only drives non-graceful mode.
    match send_signal(process.pid, KillSignal::Term) {
        Err(e) => send_outcome(process, KillSignal::Term, Err(e)),
        Ok(_) => {
            if wait_for_exit(process.pid, config.graceful_timeout_ms) {
                term_exit_result(process)
            } else {
                let send = send_signal(process.pid, KillSignal::Kill);
                if send.is_ok() {
                    // Give the unconditional kill a moment to take effect;
                    // best effort, not re-verified.
                    sleep_ms(100);
                }
                escalation_outcome(process, send)
            }
        },
    }
}

} // verus!
