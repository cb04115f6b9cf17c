//! The scanner against the live host: an unbound port, a listener's
//! lifetime, the ordering and deduplication of the full listing, and the
//! operations built on scans.

use nix::fcntl::{FcntlArg, fcntl};
use nix::sys::socket::{
    AddressFamily, Backlog, SockFlag, SockType, SockaddrIn, bind, getsockname, listen, socket,
};
use nix::unistd::close;
use portzap::commands::free::{FreeOptions, execute as free_execute};
use portzap::commands::kill::{KillOptions, execute as kill_execute};
use portzap::commands::list::{ListOptions, ListReport, execute as list_execute};
use portzap::commands::watch::sweep;
use portzap::errors::KillportError;
use portzap::killer::KillConfig;
use portzap::platform::windows::WindowsScanner;
use portzap::process::{KillSignal, PortSpec, Protocol};
use portzap::scanner::{PortScanner, create_scanner};

/// Binds and listens on an ephemeral loopback TCP port; returns a raw
/// descriptor that alone keeps the socket open, and the port the kernel
/// picked.
fn bind_listener() -> (i32, u16) {
    let sock = socket(AddressFamily::Inet, SockType::Stream, SockFlag::empty(), None).unwrap();
    let raw = fcntl(&sock, FcntlArg::F_DUPFD(10)).unwrap();
    let addr = SockaddrIn::new(127, 0, 0, 1, 0);
    bind(raw, &addr).unwrap();
    listen(&sock, Backlog::new(1).unwrap()).unwrap();
    let bound: SockaddrIn = getsockname(raw).unwrap();
    // The duplicate alone keeps the socket open from here on.
    drop(sock);
    (raw, bound.port())
}

fn release_listener(raw: i32) {
    close(raw).unwrap();
}

fn own_pid() -> u32 {
    nix::unistd::getpid().as_raw() as u32
}

#[test]
fn no_process_on_unbound_port_is_empty_not_error() {
    // Learn a port that is certainly free by binding and releasing it.
    let (raw, port) = bind_listener();
    release_listener(raw);
    let scanner = create_scanner();
    let found = scanner.find_processes_by_port(port).unwrap();
    assert!(found.is_empty(), "a free port yields an empty list, not an error");
}

#[test]
fn scanner_sees_bound_listener_and_its_release() {
    let scanner = create_scanner();
    let (raw, port) = bind_listener();

    let found = scanner.find_processes_by_port(port).unwrap();
    assert_eq!(found.len(), 1, "exactly one binding expected on the ephemeral port");
    assert_eq!(found[0].port, port);
    assert_eq!(found[0].pid, own_pid());
    assert!(matches!(found[0].protocol, Protocol::Tcp));
    assert!(!found[0].name.is_empty());

    release_listener(raw);
    let after = scanner.find_processes_by_port(port).unwrap();
    assert!(after.is_empty(), "after release the port reads as free");
}

#[test]
fn full_listing_is_sorted_and_deduplicated() {
    let scanner = create_scanner();
    let (raw, port) = bind_listener();

    let all = scanner.find_all_listening().unwrap();
    // Our listener appears.
    assert!(
        all.iter().any(|p| p.pid == own_pid() && p.port == port),
        "the live listener must appear in the full listing"
    );
    // Ordered by (port ascending, pid ascending).
    for w in all.windows(2) {
        assert!(
            w[0].port < w[1].port || (w[0].port == w[1].port && w[0].pid <= w[1].pid),
            "listing out of order: {}:{} before {}:{}",
            w[0].port,
            w[0].pid,
            w[1].port,
            w[1].pid
        );
    }
    // No duplicate (pid, port, protocol) triples.
    for i in 0..all.len() {
        for j in (i + 1)..all.len() {
            assert!(
                !(all[i].pid == all[j].pid && all[i].port == all[j].port
                    && all[i].protocol == all[j].protocol),
                "duplicate binding in the listing"
            );
        }
    }
    release_listener(raw);
}

#[test]
fn unsupported_backend_reports_platform_error() {
    let s = WindowsScanner::new();
    assert!(matches!(
        s.find_processes_by_port(80),
        Err(KillportError::PlatformError(_))
    ));
    assert!(matches!(s.find_all_listening(), Err(KillportError::PlatformError(_))));
}

#[test]
fn kill_command_dry_run_reports_per_port() {
    let (raw, port) = bind_listener();
    let opts = KillOptions {
        ports: vec![PortSpec::Single(port)],
        signal: KillSignal::Term,
        graceful: true,
        graceful_timeout_ms: 1000,
        dry_run: true,
    };
    let (outcomes, all_ok) = kill_execute(&opts).unwrap();
    assert!(all_ok);
    assert_eq!(outcomes.len(), 1);
    assert_eq!(outcomes[0].port, port);
    assert_eq!(outcomes[0].results.len(), 1);
    assert!(outcomes[0].results[0].success);
    assert_eq!(outcomes[0].results[0].signal_sent, "SIGTERM (dry-run)");
    release_listener(raw);

    // A port with nothing bound gets an empty outcome and stays a success.
    let (raw2, free_port) = bind_listener();
    release_listener(raw2);
    let opts2 = KillOptions {
        ports: vec![PortSpec::Single(free_port)],
        signal: KillSignal::Term,
        graceful: true,
        graceful_timeout_ms: 1000,
        dry_run: true,
    };
    let (outcomes2, all_ok2) = kill_execute(&opts2).unwrap();
    assert!(all_ok2);
    assert_eq!(outcomes2.len(), 1);
    assert!(outcomes2[0].results.is_empty());
}

#[test]
fn list_command_reports_requested_ports_in_order() {
    let (raw, port) = bind_listener();
    let opts = ListOptions { ports: vec![PortSpec::Single(port)] };
    match list_execute(&opts).unwrap() {
        ListReport::PerPort(listings) => {
            assert_eq!(listings.len(), 1);
            assert_eq!(listings[0].port, port);
            assert_eq!(listings[0].processes.len(), 1);
            assert_eq!(listings[0].processes[0].pid, own_pid());
        }
        ListReport::All(_) => panic!("requested ports must give per-port listings"),
    }
    release_listener(raw);

    let all_opts = ListOptions { ports: Vec::new() };
    assert!(matches!(list_execute(&all_opts).unwrap(), ListReport::All(_)));
}

#[test]
fn free_command_finds_the_first_unbound_port() {
    // A released ephemeral port is free; searching from it finds it first.
    let (raw, port) = bind_listener();
    release_listener(raw);
    let found = free_execute(&FreeOptions { start: port, max: port }).unwrap();
    assert_eq!(found, Some(port));

    // A bound port is skipped.
    let (raw2, busy) = bind_listener();
    let r = free_execute(&FreeOptions { start: busy, max: busy }).unwrap();
    assert_eq!(r, None, "an occupied single-port range has no free port");
    release_listener(raw2);

    // An empty range has no free port.
    let empty = free_execute(&FreeOptions { start: 400, max: 300 }).unwrap();
    assert_eq!(empty, None);
}

#[test]
fn watch_sweep_covers_every_watched_port() {
    let scanner = create_scanner();
    let (raw, port) = bind_listener();
    release_listener(raw);
    let config = KillConfig {
        signal: KillSignal::Term,
        graceful: false,
        graceful_timeout_ms: 0,
        dry_run: true,
    };
    let ports = vec![port];
    let results = sweep(&scanner, &ports, &config).unwrap();
    assert!(results.is_empty(), "nothing bound, nothing killed");
}
