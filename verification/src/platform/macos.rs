//! Strategy B decision logic: direct per-process socket introspection.
//!
//! On hosts whose kernel exposes per-process socket structures without the
//! inode indirection, each process's socket descriptors carry a raw kind
//! tag and a network-order local port. The enumeration of those
//! descriptors needs that host's process-introspection library and lives
//! with the embedding program; every decision about the raw values — which
//! kind tag means TCP, which means a plain internet (UDP) socket, how the
//! port is decoded, when a process has been matched — is made and verified
//! here, on plain values.

use vstd::prelude::*;
use crate::process::Protocol;

verus! {

/// The Strategy B scanner. The embedding program feeds it raw descriptor
/// records; the decisions below are its verified core.
pub struct MacosScanner;

impl MacosScanner {
    pub fn new() -> (r: Self) {
        MacosScanner
    }
}

/// A 16-bit port read from a network-order (big-endian) field: the two
/// bytes swapped.
pub open spec fn net_to_host_spec(be: u16) -> u16 {
    ((be % 256) * 256 + be / 256) as u16
}

/// Decodes a network-order port field into host order.
pub fn net_to_host(be: u16) -> (r: u16)
    ensures
        r == net_to_host_spec(be),
{
    (be % 256) * 256 + be / 256
}

/// What one raw socket record denotes: a TCP kind tag with a nonzero port
/// is a TCP binding; the plain internet kind with a nonzero port is a UDP
/// binding; anything else carries no binding.
pub open spec fn classify_spec(kind: i32, tcp_kind: i32, in_kind: i32, port_net: u16) -> Option<
    (u16, Protocol),
> {
    if kind == tcp_kind && net_to_host_spec(port_net) > 0 {
        Some((net_to_host_spec(port_net), Protocol::Tcp))
    } else if kind != tcp_kind && kind == in_kind && net_to_host_spec(port_net) > 0 {
        Some((net_to_host_spec(port_net), Protocol::Udp))
    } else {
        None
    }
}

/// Extracts the local port and protocol from one raw socket record, if it
/// is a bound internet socket: `kind` is the record's kind tag, `tcp_kind`
/// and `in_kind` the platform's tags for TCP and plain internet sockets,
/// and `port_net` the network-order local port.
pub fn extract_port_info(kind: i32, tcp_kind: i32, in_kind: i32, port_net: u16) -> (r: Option<
    (u16, Protocol),
>)
    ensures
        r == classify_spec(kind, tcp_kind, in_kind, port_net),
{
    if kind == tcp_kind {
        let port = net_to_host(port_net);
        if port > 0 {
            return Some((port, Protocol::Tcp));
        }
        return None;
    }
    if kind == in_kind {
        let port = net_to_host(port_net);
        if port > 0 {
            return Some((port, Protocol::Udp));
        }
    }
    None
}

/// The bindings a record list denotes, in descriptor order: every record's
/// classification, with records that carry no binding dropped.
pub open spec fn classified_bindings(
    records: Seq<(i32, u16)>,
    tcp_kind: i32,
    in_kind: i32,
) -> Seq<(u16, Protocol)>
    decreases records.len(),
{
    if records.len() == 0 {
        Seq::empty()
    } else {
        let rest = classified_bindings(records.drop_last(), tcp_kind, in_kind);
        match classify_spec(records.last().0, tcp_kind, in_kind, records.last().1) {
            Some(b) => rest.push(b),
            None => rest,
        }
    }
}

/// Does record `rec` classify as a binding on port `t`?
pub open spec fn denotes_port(rec: (i32, u16), tcp_kind: i32, in_kind: i32, t: u16) -> bool {
    match classify_spec(rec.0, tcp_kind, in_kind, rec.1) {
        Some(b) => b.0 == t,
        None => false,
    }
}

/// Walks one process's raw socket records, in descriptor order, and
/// collects its port bindings. Without a target port the result is exactly
/// every classified binding, in order. With a target port the walk stops
/// at the first record denoting that port, so the process is recorded
/// exactly once when any of its records denotes the target and not at all
/// otherwise.
pub fn scan_process_fds(records: &Vec<(i32, u16)>, tcp_kind: i32, in_kind: i32, port_filter: Option<
    u16,
>) -> (r: Vec<(u16, Protocol)>)
    ensures
        port_filter is None ==> r@ == classified_bindings(records@, tcp_kind, in_kind),
        port_filter matches Some(t) ==> r@.len() <= 1 && (forall|k: int|
            0 <= k < r@.len() ==> (#[trigger] r@[k]).0 == t),
        port_filter matches Some(t) ==> (r@.len() == 1 <==> exists|i: int|
            0 <= i < records@.len() && denotes_port(#[trigger] records@[i], tcp_kind, in_kind, t)),
        port_filter matches Some(t) ==> (r@.len() == 1 ==> exists|i: int|
            0 <= i < records@.len() && denotes_port(#[trigger] records@[i], tcp_kind, in_kind, t)
                && classify_spec(records@[i].0, tcp_kind, in_kind, records@[i].1) == Some(r@[0])
                && (forall|j: int|
                0 <= j < i ==> !denotes_port(#[trigger] records@[j], tcp_kind, in_kind, t))),
{
    let mut out: Vec<(u16, Protocol)> = Vec::new();
    let mut i: usize = 0;
    while i < records.len()
        invariant
            i <= records@.len(),
            port_filter is None ==> out@ == classified_bindings(
                records@.take(i as int),
                tcp_kind,
                in_kind,
            ),
            port_filter matches Some(t) ==> out@.len() == 0 && (forall|j: int|
                0 <= j < i ==> !denotes_port(#[trigger] records@[j], tcp_kind, in_kind, t)),
        decreases records@.len() - i,
    {
        let rec = records[i];
        proof {
            assert(records@.take(i as int + 1).drop_last() =~= records@.take(i as int));
            assert(records@.take(i as int + 1).last() == records@[i as int]);
            assert(records@[i as int] == rec);
        }
        match extract_port_info(rec.0, tcp_kind, in_kind, rec.1) {
            Some(binding) => {
                match port_filter {
                    Some(target) => {
                        if binding.0 == target {
                            out.push(binding);
                            return out;
                        }
                    },
                    None => {
                        out.push(binding);
                    },
                }
            },
            None => {},
        }
        i = i + 1;
    }
    proof {
        assert(records@.take(records@.len() as int) =~= records@);
    }
    out
}

/// Does a process entry bind the target port: a nonzero pid with some raw
/// socket record denoting the target?
pub open spec fn process_binds_port(
    pid: u32,
    records: Seq<(i32, u16)>,
    tcp_kind: i32,
    in_kind: i32,
    t: u16,
) -> bool {
    pid != 0 && exists|i: int|
        0 <= i < records.len() && denotes_port(#[trigger] records[i], tcp_kind, in_kind, t)
}

/// Is `entry` an observation some process of `procs` supports: the
/// process's pid, with a record classifying as the target port under
/// `entry`'s protocol?
pub open spec fn observation_from(
    procs: Seq<(u32, Vec<(i32, u16)>)>,
    tcp_kind: i32,
    in_kind: i32,
    target: u16,
    entry: (u32, u16, Protocol),
) -> bool {
    exists|j: int|
        0 <= j < procs.len() && (#[trigger] procs[j]).0 == entry.0 && (exists|i: int|
            0 <= i < procs[j].1@.len() && classify_spec(
                (#[trigger] procs[j].1@[i]).0,
                tcp_kind,
                in_kind,
                procs[j].1@[i].1,
            ) == Some((target, entry.2)))
}

/// Strategy B's by-port aggregation: every process entry (pid, its raw
/// socket records) is scanned with the target filter. A process is
/// reported exactly when its pid is nonzero and some record denotes the
/// target; at most once per pid (pid 0, the kernel idle slot, is skipped);
/// always with the target port and the protocol of its first matching
/// record.
pub fn match_processes_by_port(
    procs: &Vec<(u32, Vec<(i32, u16)>)>,
    tcp_kind: i32,
    in_kind: i32,
    target: u16,
) -> (r: Vec<(u32, u16, Protocol)>)
    ensures
        forall|k: int|
            0 <= k < r@.len() ==> (#[trigger] r@[k]).1 == target && r@[k].0 != 0,
        forall|k: int, l: int| 0 <= k < l < r@.len() ==> (#[trigger] r@[k]).0 != (#[trigger] r@[l]).0,
        forall|j: int|
            0 <= j < procs@.len() && process_binds_port(
                (#[trigger] procs@[j]).0,
                procs@[j].1@,
                tcp_kind,
                in_kind,
                target,
            ) ==> exists|k: int| 0 <= k < r@.len() && (#[trigger] r@[k]).0 == procs@[j].0,
        forall|k: int|
            0 <= k < r@.len() ==> observation_from(
                procs@,
                tcp_kind,
                in_kind,
                target,
                #[trigger] r@[k],
            ),
{
    let mut out: Vec<(u32, u16, Protocol)> = Vec::new();
    let mut j: usize = 0;
    while j < procs.len()
        invariant
            j <= procs@.len(),
            forall|k: int|
                0 <= k < out@.len() ==> (#[trigger] out@[k]).1 == target && out@[k].0 != 0,
            forall|k: int, l: int|
                0 <= k < l < out@.len() ==> (#[trigger] out@[k]).0 != (#[trigger] out@[l]).0,
            forall|j2: int|
                0 <= j2 < j && process_binds_port(
                    (#[trigger] procs@[j2]).0,
                    procs@[j2].1@,
                    tcp_kind,
                    in_kind,
                    target,
                ) ==> exists|k: int| 0 <= k < out@.len() && (#[trigger] out@[k]).0 == procs@[j2].0,
            forall|k: int|
                0 <= k < out@.len() ==> observation_from(
                    procs@,
                    tcp_kind,
                    in_kind,
                    target,
                    #[trigger] out@[k],
                ),
        decreases procs@.len() - j,
    {
        let pid = procs[j].0;
        if pid != 0 && !holds_pid(&out, pid) {
            let hits = scan_process_fds(&procs[j].1, tcp_kind, in_kind, Some(target));
            if hits.len() == 1 {
                let hit = hits[0];
                let ghost pre = out@;
                out.push((pid, hit.0, hit.1));
                proof {
                    assert(out@ == pre.push((pid, hit.0, hit.1)));
                    assert(out@[pre.len() as int] == (pid, hit.0, hit.1));
                    assert(forall|k: int| 0 <= k < pre.len() ==> out@[k] == pre[k]);
                    assert(procs@[j as int].0 == pid);
                    assert(hits@[0] == hit);
                }
            }
        } else {
            proof {
                if pid != 0 {
                    assert(exists|k: int|
                        0 <= k < out@.len() && (#[trigger] out@[k]).0 == procs@[j as int].0);
                }
            }
        }
        j = j + 1;
    }
    out
}

/// Is some reported pid equal to `pid`?
fn holds_pid(v: &Vec<(u32, u16, Protocol)>, pid: u32) -> (r: bool)
    ensures
        r <==> exists|k: int| 0 <= k < v@.len() && (#[trigger] v@[k]).0 == pid,
{
    let mut i: usize = 0;
    while i < v.len()
        invariant
            i <= v@.len(),
            forall|k: int| 0 <= k < i ==> (#[trigger] v@[k]).0 != pid,
        decreases v@.len() - i,
    {
        if v[i].0 == pid {
            return true;
        }
        i = i + 1;
    }
    false
}

} // verus!
