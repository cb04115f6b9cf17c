//! Strategy A: join the kernel's socket tables with per-process descriptor
//! tables. The socket tables give (inode, local port) pairs per protocol;
//! each process's descriptor table gives the socket inodes it holds; a hit
//! in the scan-scoped inode map emits one observed binding.

use vstd::prelude::*;
use std::collections::HashMap;
use crate::errors::KillportError;
use crate::killer::MAX_PID;
use crate::process::{ProcessInfo, Protocol};
use crate::scanner::{
    PortScanner, insert_binding, no_dup_pids, no_dup_triples, pids_in_range, ports_nonzero,
    sorted_by_port_pid,
};

verus! {

broadcast use vstd::std_specs::hash::group_hash_axioms;

/// The Strategy A scanner, backed by the kernel's /proc tree.
pub struct LinuxScanner;

#[verifier::external_type_specification]
#[verifier::external_body]
pub struct ExProcess(procfs::process::Process);

/// Relies on procfs::net::tcp: each IPv4 TCP socket-table entry, as its
/// kernel inode and local port.
#[verifier::external_body]
fn read_tcp_entries() -> (r: Result<Vec<(u64, u16)>, String>) {
    match procfs::net::tcp() {
        Ok(v) => Ok(v.into_iter().map(|e| (e.inode, e.local_address.port())).collect()),
        Err(e) => Err(e.to_string()),
    }
}

/// Relies on procfs::net::tcp6: each IPv6 TCP socket-table entry, as its
/// kernel inode and local port.
#[verifier::external_body]
fn read_tcp6_entries() -> (r: Result<Vec<(u64, u16)>, String>) {
    match procfs::net::tcp6() {
        Ok(v) => Ok(v.into_iter().map(|e| (e.inode, e.local_address.port())).collect()),
        Err(e) => Err(e.to_string()),
    }
}

/// Relies on procfs::net::udp: each IPv4 UDP socket-table entry, as its
/// kernel inode and local port.
#[verifier::external_body]
fn read_udp_entries() -> (r: Result<Vec<(u64, u16)>, String>) {
    match procfs::net::udp() {
        Ok(v) => Ok(v.into_iter().map(|e| (e.inode, e.local_address.port())).collect()),
        Err(e) => Err(e.to_string()),
    }
}

/// Relies on procfs::net::udp6: each IPv6 UDP socket-table entry, as its
/// kernel inode and local port.
#[verifier::external_body]
fn read_udp6_entries() -> (r: Result<Vec<(u64, u16)>, String>) {
    match procfs::net::udp6() {
        Ok(v) => Ok(v.into_iter().map(|e| (e.inode, e.local_address.port())).collect()),
        Err(e) => Err(e.to_string()),
    }
}

/// Relies on procfs::process::all_processes to enumerate /proc. Entries
/// that cannot be read (the process exited mid-scan, permission denied)
/// are left out: a scan recovers from per-process failures and only a
/// failure to enumerate at all is an error.
#[verifier::external_body]
fn list_processes() -> (r: Result<Vec<procfs::process::Process>, String>) {
    match procfs::process::all_processes() {
        Ok(iter) => Ok(iter.filter_map(|p| p.ok()).collect()),
        Err(e) => Err(e.to_string()),
    }
}

/// Relies on procfs::process::Process::pid: the identifier of the process.
pub assume_specification[ procfs::process::Process::pid ](p: &procfs::process::Process) -> i32;

/// Relies on procfs::process::Process::stat for the short command name
/// (`comm`); nothing when the stat file cannot be read.
#[verifier::external_body]
fn proc_comm(p: &procfs::process::Process) -> (r: Option<String>) {
    p.stat().ok().map(|s| s.comm)
}

/// Relies on procfs::process::Process::cmdline for the argument list;
/// nothing when it cannot be read (kernel threads have none).
#[verifier::external_body]
fn proc_cmdline(p: &procfs::process::Process) -> (r: Option<Vec<String>>) {
    p.cmdline().ok()
}

/// Relies on procfs::process::Process::fd: the kernel inodes of the
/// process's socket descriptors, in descriptor-table order. Descriptors
/// that are not sockets carry no port binding and are left out; a
/// descriptor table that cannot be read yields none, as a scan recovers
/// from per-process failures.
#[verifier::external_body]
fn proc_socket_inodes(p: &procfs::process::Process) -> (r: Vec<u64>) {
    let fds = match p.fd() {
        Ok(f) => f,
        Err(_) => return Vec::new(),
    };
    fds.filter_map(|f| f.ok()).filter_map(|f| match f.target {
        procfs::process::FDTarget::Socket(inode) => Some(inode),
        _ => None,
    }).collect()
}

/// Does table `t` hold an entry joining inode `ino` to local port `port`?
pub open spec fn has_entry(t: Seq<(u64, u16)>, ino: u64, port: u16) -> bool {
    exists|i: int| 0 <= i < t.len() && (#[trigger] t[i]).0 == ino && t[i].1 == port
}

/// Does table `t` hold any entry for inode `ino` with a nonzero port?
pub open spec fn has_nonzero(t: Seq<(u64, u16)>, ino: u64) -> bool {
    exists|i: int| 0 <= i < t.len() && (#[trigger] t[i]).0 == ino && t[i].1 != 0
}

/// Growing a table one entry at a time grows `has_entry` by exactly that
/// entry.
proof fn lemma_has_entry_step(t: Seq<(u64, u16)>, i: int, port: u16)
    requires
        0 <= i < t.len(),
    ensures
        forall|ino: u64| #[trigger]
            has_entry(t.take(i + 1), ino, port) <==> (has_entry(t.take(i), ino, port) || (t[i].0
                == ino && t[i].1 == port)),
{
    assert forall|ino: u64| #[trigger]
        has_entry(t.take(i + 1), ino, port) <==> (has_entry(t.take(i), ino, port) || (t[i].0 == ino
            && t[i].1 == port)) by {
        let tk = t.take(i);
        let tk1 = t.take(i + 1);
        assert(tk1 =~= tk.push(t[i]));
        if has_entry(tk1, ino, port) {
            let j = choose|j: int| 0 <= j < tk1.len() && (#[trigger] tk1[j]).0 == ino && tk1[j].1
                == port;
            if j < tk.len() {
                assert(tk[j] == tk1[j]);
                assert((tk[j]).0 == ino && tk[j].1 == port);
            } else {
                assert(tk1[j] == t[i]);
            }
        }
        if has_entry(tk, ino, port) {
            let j = choose|j: int| 0 <= j < tk.len() && (#[trigger] tk[j]).0 == ino && tk[j].1
                == port;
            assert(tk1[j] == tk[j]);
            assert((tk1[j]).0 == ino && tk1[j].1 == port);
        }
        if t[i].0 == ino && t[i].1 == port {
            assert((tk1[i]).0 == ino && tk1[i].1 == port);
        }
    }
}

/// Growing a table one entry at a time grows `has_nonzero` by exactly that
/// entry.
proof fn lemma_has_nonzero_step(t: Seq<(u64, u16)>, i: int)
    requires
        0 <= i < t.len(),
    ensures
        forall|ino: u64| #[trigger]
            has_nonzero(t.take(i + 1), ino) <==> (has_nonzero(t.take(i), ino) || (t[i].0 == ino
                && t[i].1 != 0)),
{
    assert forall|ino: u64| #[trigger]
        has_nonzero(t.take(i + 1), ino) <==> (has_nonzero(t.take(i), ino) || (t[i].0 == ino
            && t[i].1 != 0)) by {
        let tk = t.take(i);
        let tk1 = t.take(i + 1);
        assert(tk1 =~= tk.push(t[i]));
        if has_nonzero(tk1, ino) {
            let j = choose|j: int| 0 <= j < tk1.len() && (#[trigger] tk1[j]).0 == ino && tk1[j].1
                != 0;
            if j < tk.len() {
                assert(tk[j] == tk1[j]);
                assert((tk[j]).0 == ino && tk[j].1 != 0);
            } else {
                assert(tk1[j] == t[i]);
            }
        }
        if has_nonzero(tk, ino) {
            let j = choose|j: int| 0 <= j < tk.len() && (#[trigger] tk[j]).0 == ino && tk[j].1 != 0;
            assert(tk1[j] == tk[j]);
            assert((tk1[j]).0 == ino && tk1[j].1 != 0);
        }
        if t[i].0 == ino && t[i].1 != 0 {
            assert((tk1[i]).0 == ino && tk1[i].1 != 0);
        }
    }
}

/// Folds one socket table into the scan-scoped join map for a target port:
/// every entry whose local port matches `port` maps its inode to `proto`;
/// other keys keep their values.
fn fold_table(m: &mut HashMap<u64, Protocol>, t: &Vec<(u64, u16)>, port: u16, proto: Protocol)
    ensures
        forall|ino: u64| #[trigger]
            final(m)@.contains_key(ino) <==> old(m)@.contains_key(ino) || has_entry(
                t@,
                ino,
                port,
            ),
        forall|ino: u64| #[trigger]
            final(m)@.contains_key(ino) ==> final(m)@[ino] == (if has_entry(t@, ino, port) {
                proto
            } else {
                old(m)@[ino]
            }),
{
    let n = t.len();
    let mut i: usize = 0;
    while i < n
        invariant
            i <= n == t@.len(),
            forall|ino: u64| #[trigger]
                m@.contains_key(ino) <==> old(m)@.contains_key(ino) || has_entry(
                    t@.take(i as int),
                    ino,
                    port,
                ),
            forall|ino: u64| #[trigger]
                m@.contains_key(ino) ==> m@[ino] == (if has_entry(t@.take(i as int), ino, port) {
                    proto
                } else {
                    old(m)@[ino]
                }),
        decreases n - i,
    {
        let e = t[i];
        proof {
            lemma_has_entry_step(t@, i as int, port);
            assert(t@[i as int] == e);
        }
        if e.1 == port {
            m.insert(e.0, proto);
        }
        i = i + 1;
    }
    proof {
        assert(t@.take(n as int) =~= t@);
    }
}

/// Folds one socket table into the scan-scoped join map for the full
/// listing: every entry with a nonzero local port maps its inode to that
/// port and `proto`; other keys keep their values, and every value in the
/// map is an actual table entry with a nonzero port.
fn fold_table_all(m: &mut HashMap<u64, (u16, Protocol)>, t: &Vec<(u64, u16)>, proto: Protocol)
    requires
        forall|ino: u64| #[trigger] old(m)@.contains_key(ino) ==> old(m)@[ino].0 != 0,
    ensures
        forall|ino: u64| #[trigger]
            final(m)@.contains_key(ino) <==> old(m)@.contains_key(ino) || has_nonzero(t@, ino),
        forall|ino: u64| #[trigger] final(m)@.contains_key(ino) ==> final(m)@[ino].0 != 0,
        forall|ino: u64| #[trigger]
            final(m)@.contains_key(ino) ==> (old(m)@.contains_key(ino) && final(m)@[ino] == old(
                m,
            )@[ino]) || (has_entry(t@, ino, final(m)@[ino].0) && final(m)@[ino].1 == proto),
{
    let n = t.len();
    let mut i: usize = 0;
    while i < n
        invariant
            i <= n == t@.len(),
            forall|ino: u64| #[trigger] old(m)@.contains_key(ino) ==> old(m)@[ino].0 != 0,
            forall|ino: u64| #[trigger]
                m@.contains_key(ino) <==> old(m)@.contains_key(ino) || has_nonzero(
                    t@.take(i as int),
                    ino,
                ),
            forall|ino: u64| #[trigger] m@.contains_key(ino) ==> m@[ino].0 != 0,
            forall|ino: u64| #[trigger]
                m@.contains_key(ino) ==> (old(m)@.contains_key(ino) && m@[ino] == old(m)@[ino]) || (
                has_entry(t@.take(i as int), ino, m@[ino].0) && m@[ino].1 == proto),
        decreases n - i,
    {
        let e = t[i];
        proof {
            lemma_has_nonzero_step(t@, i as int);
            lemma_has_entry_step(t@, i as int, e.1);
            assert(t@[i as int] == e);
            assert forall|ino: u64, p: u16|
                has_entry(t@.take(i as int), ino, p) implies has_entry(
                t@.take(i as int + 1),
                ino,
                p,
            ) by {
                let tk = t@.take(i as int);
                let tk1 = t@.take(i as int + 1);
                assert(tk1 =~= tk.push(t@[i as int]));
                let j = choose|j: int| 0 <= j < tk.len() && (#[trigger] tk[j]).0 == ino && tk[j].1
                    == p;
                assert(tk1[j] == tk[j]);
                assert((tk1[j]).0 == ino && tk1[j].1 == p);
            }
        }
        if e.1 != 0 {
            m.insert(e.0, (e.1, proto));
        }
        i = i + 1;
    }
    proof {
        assert(t@.take(n as int) =~= t@);
    }
}

/// Builds the scan-scoped join map for one port over all four socket
/// tables: socket inode to protocol, for every entry whose local port
/// matches `port`. The UDP tables are folded in last, so an inode listed
/// by both a TCP and a UDP table (which live kernels do not produce) reads
/// as UDP.
pub fn port_inode_map(
    tcp: &Vec<(u64, u16)>,
    tcp6: &Vec<(u64, u16)>,
    udp: &Vec<(u64, u16)>,
    udp6: &Vec<(u64, u16)>,
    port: u16,
) -> (m: HashMap<u64, Protocol>)
    ensures
        forall|ino: u64| #[trigger]
            m@.contains_key(ino) <==> has_entry(tcp@, ino, port) || has_entry(tcp6@, ino, port)
                || has_entry(udp@, ino, port) || has_entry(udp6@, ino, port),
        forall|ino: u64| #[trigger]
            m@.contains_key(ino) ==> m@[ino] == (if has_entry(udp@, ino, port) || has_entry(
                udp6@,
                ino,
                port,
            ) {
                Protocol::Udp
            } else {
                Protocol::Tcp
            }),
{
    let mut m: HashMap<u64, Protocol> = HashMap::new();
    fold_table(&mut m, tcp, port, Protocol::Tcp);
    fold_table(&mut m, tcp6, port, Protocol::Tcp);
    fold_table(&mut m, udp, port, Protocol::Udp);
    fold_table(&mut m, udp6, port, Protocol::Udp);
    m
}

/// Builds the scan-scoped join map for the full listing: socket inode to
/// (port, protocol) for every socket-table entry with a nonzero local
/// port. Every value in the map is an actual entry of one of the four
/// tables, tagged with that table's protocol.
pub fn all_inode_map(
    tcp: &Vec<(u64, u16)>,
    tcp6: &Vec<(u64, u16)>,
    udp: &Vec<(u64, u16)>,
    udp6: &Vec<(u64, u16)>,
) -> (m: HashMap<u64, (u16, Protocol)>)
    ensures
        forall|ino: u64| #[trigger]
            m@.contains_key(ino) <==> has_nonzero(tcp@, ino) || has_nonzero(tcp6@, ino)
                || has_nonzero(udp@, ino) || has_nonzero(udp6@, ino),
        forall|ino: u64| #[trigger] m@.contains_key(ino) ==> m@[ino].0 != 0,
        forall|ino: u64| #[trigger]
            m@.contains_key(ino) ==> ((has_entry(tcp@, ino, m@[ino].0) && m@[ino].1
                == Protocol::Tcp) || (has_entry(tcp6@, ino, m@[ino].0) && m@[ino].1
                == Protocol::Tcp) || (has_entry(udp@, ino, m@[ino].0) && m@[ino].1
                == Protocol::Udp) || (has_entry(udp6@, ino, m@[ino].0) && m@[ino].1
                == Protocol::Udp)),
{
    let mut m: HashMap<u64, (u16, Protocol)> = HashMap::new();
    fold_table_all(&mut m, tcp, Protocol::Tcp);
    fold_table_all(&mut m, tcp6, Protocol::Tcp);
    fold_table_all(&mut m, udp, Protocol::Udp);
    fold_table_all(&mut m, udp6, Protocol::Udp);
    m
}

/// The command line a listing shows: the process's argument parts joined
/// by single spaces.
pub open spec fn joined_parts(parts: Seq<String>) -> Seq<char>
    decreases parts.len(),
{
    if parts.len() == 0 {
        Seq::empty()
    } else if parts.len() == 1 {
        parts[0]@
    } else {
        joined_parts(parts.drop_last()) + " "@ + parts.last()@
    }
}

/// Joins cmdline parts with single spaces, keeping absence: a process
/// whose argument list cannot be read has no command string.
pub fn join_cmdline(parts: Option<Vec<String>>) -> (r: Option<String>)
    ensures
        r is Some <==> parts is Some,
        parts matches Some(v) ==> (r matches Some(s) && s@ == joined_parts(v@)),
{
    match parts {
        None => None,
        Some(v) => {
            let mut s = String::new();
            let mut i: usize = 0;
            while i < v.len()
                invariant
                    i <= v@.len(),
                    s@ == joined_parts(v@.take(i as int)),
                decreases v@.len() - i,
            {
                if i > 0 {
                    s.append(" ");
                }
                s.append(v[i].as_str());
                proof {
                    assert(v@.take(i as int + 1).drop_last() =~= v@.take(i as int));
                    assert(v@.take(i as int + 1).last() == v@[i as int]);
                    if i == 0 {
                        assert(s@ =~= v@[0]@);
                        assert(v@.take(1)[0] == v@[0]);
                    }
                }
                i = i + 1;
            }
            proof {
                assert(v@.take(v@.len() as int) =~= v@);
            }
            Some(s)
        },
    }
}

/// Is some pid of the listing equal to `pid`?
fn contains_pid(v: &Vec<ProcessInfo>, pid: u32) -> (r: bool)
    ensures
        r <==> exists|i: int| 0 <= i < v@.len() && (#[trigger] v@[i]).pid == pid,
{
    let mut i: usize = 0;
    while i < v.len()
        invariant
            i <= v@.len(),
            forall|k: int| 0 <= k < i ==> (#[trigger] v@[k]).pid != pid,
        decreases v@.len() - i,
    {
        if v[i].pid == pid {
            return true;
        }
        i = i + 1;
    }
    false
}

/// One process's observation for the by-port query: the first socket
/// inode that hits the join map wins, so the process is recorded at most
/// once per target port.
fn match_process_for_port(
    pid: u32,
    name: String,
    command: Option<String>,
    inodes: &Vec<u64>,
    m: &HashMap<u64, Protocol>,
    port: u16,
) -> (r: Option<ProcessInfo>)
    ensures
        r is Some <==> exists|i: int| 0 <= i < inodes@.len() && m@.contains_key(
            #[trigger] inodes@[i],
        ),
        r matches Some(info) ==> info.pid == pid && info.port == port && info.name == name
            && info.command == command && info.user is None && (exists|i: int|
            0 <= i < inodes@.len() && m@.contains_key(#[trigger] inodes@[i]) && info.protocol
                == m@[inodes@[i]]),
{
    let n = inodes.len();
    let mut i: usize = 0;
    while i < n
        invariant
            i <= n == inodes@.len(),
            forall|k: int| 0 <= k < i ==> !m@.contains_key(#[trigger] inodes@[k]),
        decreases n - i,
    {
        match m.get(&inodes[i]) {
            Some(proto) => {
                proof {
                    assert(m@.contains_key(inodes@[i as int]));
                }
                return Some(
                    ProcessInfo {
                        pid,
                        name,
                        port,
                        protocol: *proto,
                        command,
                        user: None,
                    },
                );
            },
            None => {},
        }
        i = i + 1;
    }
    None
}

impl LinuxScanner {
    pub fn new() -> (r: Self) {
        LinuxScanner
    }
}

/// Reads the four socket tables; an unreadable table reads as empty, and
/// only all four failing is a systemic failure.
fn read_all_tables() -> (r: Result<
    (Vec<(u64, u16)>, Vec<(u64, u16)>, Vec<(u64, u16)>, Vec<(u64, u16)>),
    KillportError,
>) {
    let tcp = read_tcp_entries();
    let tcp6 = read_tcp6_entries();
    let udp = read_udp_entries();
    let udp6 = read_udp6_entries();
    if tcp.is_err() && tcp6.is_err() && udp.is_err() && udp6.is_err() {
        return Err(
            KillportError::PlatformError(
                String::from_str("cannot read the kernel socket tables"),
            ),
        );
    }
    let tcp_v = match tcp {
        Ok(v) => v,
        Err(_) => Vec::new(),
    };
    let tcp6_v = match tcp6 {
        Ok(v) => v,
        Err(_) => Vec::new(),
    };
    let udp_v = match udp {
        Ok(v) => v,
        Err(_) => Vec::new(),
    };
    let udp6_v = match udp6 {
        Ok(v) => v,
        Err(_) => Vec::new(),
    };
    Ok((tcp_v, tcp6_v, udp_v, udp6_v))
}

/// Wraps a process-enumeration failure as the scan's terminal error.
fn enumeration_error(detail: String) -> (r: KillportError)
    ensures
        r is PlatformError,
{
    let mut msg = String::from_str("cannot enumerate processes: ");
    msg.append(detail.as_str());
    KillportError::PlatformError(msg)
}

impl PortScanner for LinuxScanner {
    /// Strategy A by-port query: map matching socket inodes to protocols,
    /// then walk every process's descriptors and record the first hit.
    fn find_processes_by_port(&self, port: u16) -> (r: Result<Vec<ProcessInfo>, KillportError>) {
        let (tcp, tcp6, udp, udp6) = match read_all_tables() {
            Ok(t) => t,
            Err(e) => return Err(e),
        };
        let m = port_inode_map(&tcp, &tcp6, &udp, &udp6, port);
        if m.len() == 0 {
            return Ok(Vec::new());
        }
        let procs = match list_processes() {
            Ok(p) => p,
            Err(e) => return Err(enumeration_error(e)),
        };
        let mut results: Vec<ProcessInfo> = Vec::new();
        let mut idx: usize = 0;
        while idx < procs.len()
            invariant
                forall|i: int| 0 <= i < results@.len() ==> (#[trigger] results@[i]).port == port,
                pids_in_range(results@),
                no_dup_pids(results@),
            decreases procs@.len() - idx,
        {
            let p = &procs[idx];
            let pid_raw = p.pid();
            if pid_raw >= 0 {
                let pid = pid_raw as u32;
                if !contains_pid(&results, pid) {
                    let inodes = proc_socket_inodes(p);
                    let name = match proc_comm(p) {
                        Some(n) => n,
                        None => String::from_str("<unknown>"),
                    };
                    let command = join_cmdline(proc_cmdline(p));
                    match match_process_for_port(pid, name, command, &inodes, &m, port) {
                        Some(info) => {
                            results.push(info);
                        },
                        None => {},
                    }
                }
            }
            idx = idx + 1;
        }
        Ok(results)
    }

    /// Strategy A full listing: map every bound socket inode to its port
    /// and protocol, walk every process's descriptors, and keep the
    /// observations ordered by (port, pid) with no (pid, port, protocol)
    /// binding recorded twice.
    fn find_all_listening(&self) -> (r: Result<Vec<ProcessInfo>, KillportError>) {
        let (tcp, tcp6, udp, udp6) = match read_all_tables() {
            Ok(t) => t,
            Err(e) => return Err(e),
        };
        let m = all_inode_map(&tcp, &tcp6, &udp, &udp6);
        if m.len() == 0 {
            return Ok(Vec::new());
        }
        let procs = match list_processes() {
            Ok(p) => p,
            Err(e) => return Err(enumeration_error(e)),
        };
        let mut results: Vec<ProcessInfo> = Vec::new();
        let mut idx: usize = 0;
        while idx < procs.len()
            invariant
                sorted_by_port_pid(results@),
                no_dup_triples(results@),
                pids_in_range(results@),
                ports_nonzero(results@),
                forall|ino: u64| #[trigger] m@.contains_key(ino) ==> m@[ino].0 != 0,
            decreases procs@.len() - idx,
        {
            let p = &procs[idx];
            let pid_raw = p.pid();
            if pid_raw >= 0 {
                let pid = pid_raw as u32;
                let inodes = proc_socket_inodes(p);
                let name = match proc_comm(p) {
                    Some(n) => n,
                    None => String::from_str("<unknown>"),
                };
                let command = join_cmdline(proc_cmdline(p));
                let mut k: usize = 0;
                while k < inodes.len()
                    invariant
                        sorted_by_port_pid(results@),
                        no_dup_triples(results@),
                        pids_in_range(results@),
                        ports_nonzero(results@),
                        pid <= MAX_PID,
                        forall|ino: u64| #[trigger] m@.contains_key(ino) ==> m@[ino].0 != 0,
                    decreases inodes@.len() - k,
                {
                    match m.get(&inodes[k]) {
                        Some(binding) => {
                            let obs = ProcessInfo {
                                pid,
                                name: name.clone(),
                                port: binding.0,
                                protocol: binding.1,
                                command: command.clone(),
                                user: None,
                            };
                            let ghost pre = results@;
                            proof {
                                assert(m@.contains_key(inodes@[k as int]) && m@[inodes@[k as int]]
                                    == *binding);
                                assert(obs.port >= 1);
                            }
                            insert_binding(&mut results, obs);
                            proof {
                                assert forall|i: int|
                                    0 <= i < results@.len() implies (#[trigger] results@[i]).pid
                                    <= MAX_PID && results@[i].port >= 1 by {
                                    if !pre.contains(results@[i]) {
                                        assert(results@[i] == obs);
                                    } else {
                                        let w = choose|w: int|
                                            0 <= w < pre.len() && pre[w] == results@[i];
                                        assert(pre[w].pid <= MAX_PID && pre[w].port >= 1);
                                    }
                                }
                            }
                        },
                        None => {},
                    }
                    k = k + 1;
                }
            }
            idx = idx + 1;
        }
        Ok(results)
    }
}

} // verus!
