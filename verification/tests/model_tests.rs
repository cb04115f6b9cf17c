//! The pure pieces of the data model: display trimming, themes, defaults,
//! command-line conversions, wait decisions, the Strategy B socket
//! classifier, and listing normalization.

use portzap::cli::{Format, Signal, WaitUntil, convert_format, convert_signal, convert_wait_until};
use portzap::commands::wait::{condition_met, wait_timed_out};
use portzap::config::Config;
use portzap::output::{OutputFormat, truncate_command};
use portzap::platform::macos::{extract_port_info, match_processes_by_port, net_to_host, scan_process_fds};
use portzap::process::{KillSignal, ProcessInfo, Protocol, WaitCondition, u64_to_string};
use portzap::scanner::insert_binding;
use portzap::theme::ThemeVariant;

#[test]
fn truncate_keeps_short_commands_whole() {
    assert_eq!(truncate_command(""), "");
    assert_eq!(truncate_command("cargo run"), "cargo run");
    let exactly_80: String = "x".repeat(80);
    assert_eq!(truncate_command(&exactly_80), exactly_80);
}

#[test]
fn truncate_cuts_long_commands_with_ellipsis() {
    let long: String = "y".repeat(100);
    let cut = truncate_command(&long);
    assert_eq!(cut.len(), 80);
    assert_eq!(&cut[..77], "y".repeat(77));
    assert!(cut.ends_with("..."));
}

#[test]
fn theme_toggles_between_the_two_variants() {
    assert_eq!(ThemeVariant::default(), ThemeVariant::Dark);
    assert_eq!(ThemeVariant::Dark.toggle(), ThemeVariant::Light);
    assert_eq!(ThemeVariant::Light.toggle(), ThemeVariant::Dark);
    assert_eq!(ThemeVariant::Dark.toggle().toggle(), ThemeVariant::Dark);
}

#[test]
fn config_defaults_match_first_run() {
    let c = Config::default();
    assert_eq!(c.theme, ThemeVariant::Dark);
    assert!(!c.skip_confirm_dialog);
    assert_eq!(c.animation_duration_ms, 1000);
}

#[test]
fn command_line_choices_convert_exactly() {
    assert_eq!(convert_signal(Signal::Term), KillSignal::Term);
    assert_eq!(convert_signal(Signal::Kill), KillSignal::Kill);
    assert_eq!(convert_signal(Signal::Int), KillSignal::Int);
    assert_eq!(convert_signal(Signal::Hup), KillSignal::Hup);
    assert_eq!(convert_format(Format::Table), OutputFormat::Table);
    assert_eq!(convert_format(Format::Json), OutputFormat::Json);
    assert_eq!(convert_format(Format::Plain), OutputFormat::Plain);
    assert_eq!(convert_wait_until(WaitUntil::Down), WaitCondition::Free);
    assert_eq!(convert_wait_until(WaitUntil::Up), WaitCondition::Occupied);
}

#[test]
fn wait_decisions_follow_the_condition_and_clock() {
    assert!(condition_met(true, WaitCondition::Free));
    assert!(!condition_met(false, WaitCondition::Free));
    assert!(condition_met(false, WaitCondition::Occupied));
    assert!(!condition_met(true, WaitCondition::Occupied));

    assert!(!wait_timed_out(1_000_000, 0), "a zero timeout waits forever");
    assert!(!wait_timed_out(999, 1));
    assert!(wait_timed_out(1000, 1));
    assert!(wait_timed_out(5001, 5));
    assert!(!wait_timed_out(u64::MAX, u64::MAX), "an enormous timeout never trips");
}

#[test]
fn socket_records_classify_by_kind_tag_and_port() {
    // 8080 is 0x1F90; its network-order field reads as 0x901F.
    assert_eq!(net_to_host(0x901F), 8080);
    assert_eq!(net_to_host(0), 0);
    let tcp_tag = 2;
    let in_tag = 1;
    assert_eq!(extract_port_info(2, tcp_tag, in_tag, 0x901F), Some((8080, Protocol::Tcp)));
    assert_eq!(extract_port_info(1, tcp_tag, in_tag, 0x901F), Some((8080, Protocol::Udp)));
    assert_eq!(extract_port_info(9, tcp_tag, in_tag, 0x901F), None, "unknown kind");
    assert_eq!(extract_port_info(2, tcp_tag, in_tag, 0), None, "unbound socket");
}

#[test]
fn process_fd_scan_stops_at_the_target_and_collects_all_without_one() {
    let tcp_tag = 2;
    let in_tag = 1;
    // Records: not a socket kind; TCP on 8080; UDP on 53.
    let records: Vec<(i32, u16)> = vec![(9, 0x901F), (2, 0x901F), (1, 0x3500)];
    let hit = scan_process_fds(&records, tcp_tag, in_tag, Some(8080));
    assert_eq!(hit, vec![(8080, Protocol::Tcp)]);
    let miss = scan_process_fds(&records, tcp_tag, in_tag, Some(9999));
    assert!(miss.is_empty());
    let all = scan_process_fds(&records, tcp_tag, in_tag, None);
    assert_eq!(all, vec![(8080, Protocol::Tcp), (53, Protocol::Udp)]);
}

#[test]
fn by_port_aggregation_reports_each_matching_process_once() {
    let tcp_tag = 2;
    let in_tag = 1;
    // 8080 reads 0x901F in network order; 53 reads 0x3500.
    let procs: Vec<(u32, Vec<(i32, u16)>)> = vec![
        (0, vec![(2, 0x901F)]),                  // kernel idle slot: skipped
        (11, vec![(9, 0x901F), (2, 0x901F)]),    // binds 8080 over TCP
        (12, vec![(1, 0x3500)]),                 // binds only 53
        (13, vec![(2, 0x901F), (1, 0x901F)]),    // first match wins: TCP
        (11, vec![(2, 0x901F)]),                 // duplicate pid: kept once
    ];
    let matched = match_processes_by_port(&procs, tcp_tag, in_tag, 8080);
    assert_eq!(matched, vec![(11, 8080, Protocol::Tcp), (13, 8080, Protocol::Tcp)]);
    let none = match_processes_by_port(&procs, tcp_tag, in_tag, 9999);
    assert!(none.is_empty(), "no binding means an empty result, not an error");
}

fn obs(pid: u32, port: u16, protocol: Protocol) -> ProcessInfo {
    ProcessInfo {
        pid,
        name: format!("p{}", pid),
        port,
        protocol,
        command: None,
        user: None,
    }
}

#[test]
fn insert_binding_keeps_order_and_drops_duplicates() {
    let mut listing: Vec<ProcessInfo> = Vec::new();
    insert_binding(&mut listing, obs(50, 8080, Protocol::Tcp));
    insert_binding(&mut listing, obs(10, 80, Protocol::Tcp));
    insert_binding(&mut listing, obs(99, 80, Protocol::Udp));
    insert_binding(&mut listing, obs(50, 8080, Protocol::Tcp)); // duplicate triple
    insert_binding(&mut listing, obs(10, 80, Protocol::Udp)); // same pid+port, other protocol

    let keys: Vec<(u16, u32)> = listing.iter().map(|p| (p.port, p.pid)).collect();
    assert_eq!(keys, vec![(80, 10), (80, 10), (80, 99), (8080, 50)]);
    let protos: Vec<Protocol> = listing.iter().map(|p| p.protocol).collect();
    assert_eq!(protos.len(), 4);
    assert_eq!(listing.len(), 4, "the duplicate triple was dropped");
}

#[test]
fn decimal_rendering_is_exact() {
    assert_eq!(u64_to_string(0), "0");
    assert_eq!(u64_to_string(7), "7");
    assert_eq!(u64_to_string(10), "10");
    assert_eq!(u64_to_string(65535), "65535");
    assert_eq!(u64_to_string(u64::MAX), "18446744073709551615");
}

#[test]
fn binding_describes_itself() {
    let p = obs(7, 80, Protocol::Tcp);
    assert_eq!(p.describe(), "PID 7 (p7) on port 80/TCP");
    let q = obs(4242, 53, Protocol::Udp);
    assert_eq!(q.describe(), "PID 4242 (p4242) on port 53/UDP");
}

#[test]
fn process_info_is_a_plain_value() {
    let a = obs(7, 80, Protocol::Tcp);
    let b = a.clone();
    assert_eq!(a, b, "equality is structural");
    assert_eq!(b.name, "p7");
    let labelled = a.protocol.label();
    assert_eq!(labelled, "TCP");
    assert_eq!(Protocol::Udp.label(), "UDP");
    assert_eq!(KillSignal::Int.label(), "SIGINT");
}
