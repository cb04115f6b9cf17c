//! The termination state machine, against live processes and on the
//! decision layer's concrete values.

use nix::fcntl::{OFlag, open};
use nix::spawn::{PosixSpawnAttr, PosixSpawnFileActions, posix_spawn};
use nix::sys::signal::{Signal, kill};
use nix::sys::stat::Mode;
use nix::sys::wait::{WaitStatus, waitpid};
use nix::unistd::{Pid, getpid, read, unlink};
use portzap::errors::KillportError;
use portzap::killer::{
    KillConfig, SendError, dry_run_result, escalation_outcome, kill_process, send_outcome,
    term_exit_result,
};
use portzap::process::{KillSignal, ProcessInfo, Protocol};
use std::time::Instant;

fn target(pid: u32) -> ProcessInfo {
    ProcessInfo {
        pid,
        name: "test-target".to_string(),
        port: 0,
        protocol: Protocol::Tcp,
        command: None,
        user: None,
    }
}

/// Runs `/bin/sh -c script` as a direct child and returns its pid.
fn spawn_shell(script: &core::ffi::CStr) -> Pid {
    let fa = PosixSpawnFileActions::init().unwrap();
    let attr = PosixSpawnAttr::init().unwrap();
    let args = [c"sh", c"-c", script];
    let env = [c"PATH=/usr/bin:/bin"];
    posix_spawn("/bin/sh", &fa, &attr, &args, &env).unwrap()
}

/// Reads a decimal pid that a detached shell wrote into `path`, waiting
/// for it to appear.
fn read_pid_file(path: &str) -> u32 {
    let deadline = Instant::now();
    loop {
        assert!(deadline.elapsed().as_secs() < 10, "pid file never appeared");
        if let Ok(fd) = open(path, OFlag::O_RDONLY, Mode::empty()) {
            let mut buf = [0u8; 32];
            if let Ok(n) = read(&fd, &mut buf) {
                if n > 0 {
                    let text = core::str::from_utf8(&buf[..n]).unwrap();
                    if let Ok(pid) = text.trim().parse::<u32>() {
                        return pid;
                    }
                }
            }
        }
    }
}

fn pid_is_alive(pid: u32) -> bool {
    kill(Pid::from_raw(pid as i32), None).is_ok()
}

/// A pid that certainly names no process.
fn dead_pid() -> u32 {
    let mut p: i32 = 4_000_000;
    while p > 100_000 {
        if kill(Pid::from_raw(p), None).is_err() {
            return p as u32;
        }
        p -= 7;
    }
    panic!("no free pid found");
}

#[test]
fn dry_run_reports_success_and_sends_nothing() {
    let me = getpid().as_raw() as u32;
    let config = KillConfig {
        signal: KillSignal::Term,
        graceful: true,
        graceful_timeout_ms: 5000,
        dry_run: true,
    };
    let before = Instant::now();
    let r = kill_process(&target(me), &config);
    assert!(before.elapsed().as_millis() < 500, "dry run must not wait");
    assert!(r.success);
    assert_eq!(r.signal_sent, "SIGTERM (dry-run)");
    assert!(r.error.is_none());
    assert!(pid_is_alive(me), "dry run must not change liveness");
}

#[test]
fn dry_run_labels_the_configured_signal() {
    let config = KillConfig {
        signal: KillSignal::Hup,
        graceful: false,
        graceful_timeout_ms: 0,
        dry_run: true,
    };
    let r = kill_process(&target(dead_pid()), &config);
    assert!(r.success);
    assert_eq!(r.signal_sent, "SIGHUP (dry-run)");
}

#[test]
fn graceful_kill_exits_within_timeout() {
    // The victim is the helper shell's child, not ours, and the helper
    // waits on it, so the victim is reaped the moment it dies and its pid
    // then reads as gone.
    let helper = spawn_shell(
        c"sleep 30 >/dev/null 2>&1 & echo -n $! > /tmp/portzap_graceful_target.pid; wait $!; exit 0",
    );
    let victim = read_pid_file("/tmp/portzap_graceful_target.pid");
    let _ = unlink("/tmp/portzap_graceful_target.pid");
    assert!(pid_is_alive(victim));

    let config = KillConfig {
        signal: KillSignal::Term,
        graceful: true,
        graceful_timeout_ms: 8000,
        dry_run: false,
    };
    let before = Instant::now();
    let r = kill_process(&target(victim), &config);
    assert!(r.success);
    assert_eq!(r.signal_sent, "SIGTERM", "no escalation path on a prompt exit");
    assert!(r.error.is_none());
    assert!(
        before.elapsed().as_millis() < 7000,
        "a prompt exit must not wait out the timeout"
    );
    assert!(!pid_is_alive(victim));
    waitpid(helper, None).unwrap();
}

#[test]
fn graceful_kill_escalates_after_timeout() {
    // A direct child that ignores the terminate signal: only the
    // escalation can end it.
    // The shell reports readiness only after the trap is in place, so the
    // terminate signal cannot arrive before it is ignored.
    let child = spawn_shell(
        c"trap '' TERM; echo -n $$ > /tmp/portzap_stubborn_target.pid; sleep 30; exit 0",
    );
    let pid = read_pid_file("/tmp/portzap_stubborn_target.pid");
    let _ = unlink("/tmp/portzap_stubborn_target.pid");
    assert_eq!(pid, child.as_raw() as u32);
    assert!(pid_is_alive(pid));

    let config = KillConfig {
        signal: KillSignal::Term,
        graceful: true,
        graceful_timeout_ms: 1000,
        dry_run: false,
    };
    let before = Instant::now();
    let r = kill_process(&target(pid), &config);
    let elapsed = before.elapsed().as_millis();
    assert!(r.success);
    assert_eq!(r.signal_sent, "SIGTERM -> SIGKILL");
    assert!(r.error.is_none());
    assert!(
        1000 <= elapsed && elapsed <= 1450,
        "expected about 1.0-1.3s, took {}ms",
        elapsed
    );
    // The child really went down by the kill signal.
    match waitpid(child, None).unwrap() {
        WaitStatus::Signaled(_, sig, _) => assert_eq!(sig, Signal::SIGKILL),
        other => panic!("expected a SIGKILL death, got {:?}", other),
    }
}

#[test]
fn vanished_target_counts_as_success() {
    let gone = dead_pid();
    let graceful = KillConfig {
        signal: KillSignal::Term,
        graceful: true,
        graceful_timeout_ms: 5000,
        dry_run: false,
    };
    let r = kill_process(&target(gone), &graceful);
    assert!(r.success, "a vanished target is not a hard failure");
    assert_eq!(r.signal_sent, "SIGTERM (process vanished)");
    assert!(r.error.is_none());

    let forceful = KillConfig {
        signal: KillSignal::Kill,
        graceful: false,
        graceful_timeout_ms: 0,
        dry_run: false,
    };
    let r2 = kill_process(&target(gone), &forceful);
    assert!(r2.success);
    assert_eq!(r2.signal_sent, "SIGKILL (process vanished)");
}

#[test]
fn killing_twice_is_harmless() {
    let gone = dead_pid();
    let config = KillConfig {
        signal: KillSignal::Term,
        graceful: true,
        graceful_timeout_ms: 5000,
        dry_run: false,
    };
    let first = kill_process(&target(gone), &config);
    let second = kill_process(&target(gone), &config);
    assert!(first.success);
    assert!(second.success, "an already-dead target reports vanished, not failure");
    assert_eq!(second.signal_sent, "SIGTERM (process vanished)");
}

#[test]
fn force_kill_sends_the_configured_signal_once() {
    let child = spawn_shell(c"exec sleep 30");
    let pid = child.as_raw() as u32;
    let config = KillConfig {
        signal: KillSignal::Kill,
        graceful: false,
        graceful_timeout_ms: 0,
        dry_run: false,
    };
    let before = Instant::now();
    let r = kill_process(&target(pid), &config);
    assert!(r.success);
    assert_eq!(r.signal_sent, "SIGKILL");
    assert!(before.elapsed().as_millis() < 500, "force mode must not poll");
    match waitpid(child, None).unwrap() {
        WaitStatus::Signaled(_, sig, _) => assert_eq!(sig, Signal::SIGKILL),
        other => panic!("expected a SIGKILL death, got {:?}", other),
    }
}

#[test]
fn default_config_is_graceful_terminate() {
    let c = KillConfig::default();
    assert_eq!(c.signal, KillSignal::Term);
    assert!(c.graceful);
    assert_eq!(c.graceful_timeout_ms, 5000);
    assert!(!c.dry_run);
}

#[test]
fn outcome_layer_labels_each_transition() {
    let p = target(1234);
    let dry = dry_run_result(&p, KillSignal::Int);
    assert!(dry.success);
    assert_eq!(dry.signal_sent, "SIGINT (dry-run)");

    let exited = term_exit_result(&p);
    assert!(exited.success);
    assert_eq!(exited.signal_sent, "SIGTERM");

    let escalated = escalation_outcome(&p, Ok(()));
    assert!(escalated.success);
    assert_eq!(escalated.signal_sent, "SIGTERM -> SIGKILL");

    let vanished = escalation_outcome(&p, Err(SendError::NoSuchProcess));
    assert!(vanished.success);
    assert_eq!(vanished.signal_sent, "SIGKILL (process vanished)");

    let denied = send_outcome(&p, KillSignal::Term, Err(SendError::PermissionDenied));
    assert!(!denied.success);
    assert_eq!(denied.signal_sent, "SIGTERM");
    assert_eq!(
        denied.error.as_deref(),
        Some("permission denied. Try running with sudo")
    );

    let other = send_outcome(&p, KillSignal::Hup, Err(SendError::Other("boom".to_string())));
    assert!(!other.success);
    assert_eq!(other.error.as_deref(), Some("boom"));

    let sent = send_outcome(&p, KillSignal::Hup, Ok(()));
    assert!(sent.success);
    assert_eq!(sent.signal_sent, "SIGHUP");
    assert_eq!(sent.process, p);
}

#[test]
fn error_messages_are_nonempty_and_specific() {
    let m = KillportError::InvalidPortRange("3-1".to_string()).message();
    assert!(m.contains("invalid port range"));
    assert!(m.contains("3-1"));
    let p = KillportError::PermissionDenied { pid: 1, name: "init".to_string() }.message();
    assert!(p.contains("permission denied"));
    assert!(p.contains("init"));
    let e = KillportError::PlatformError("oops".to_string()).message();
    assert!(e.contains("platform error: oops"));
}
