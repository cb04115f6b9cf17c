//! The scanner contract shared by every platform backend, and the ordering
//! and deduplication rules a full listing obeys.

use vstd::prelude::*;
use crate::errors::KillportError;
use crate::killer::MAX_PID;
use crate::platform::linux::LinuxScanner;
use crate::platform::windows::WindowsScanner;
use crate::process::ProcessInfo;

verus! {

/// The display order of a listing: by port, then by pid.
pub open spec fn key_le(a: ProcessInfo, b: ProcessInfo) -> bool {
    a.port < b.port || (a.port == b.port && a.pid <= b.pid)
}

/// Is `s` ordered by (port ascending, pid ascending)?
pub open spec fn sorted_by_port_pid(s: Seq<ProcessInfo>) -> bool {
    forall|i: int, j: int| 0 <= i < j < s.len() ==> key_le(#[trigger] s[i], #[trigger] s[j])
}

/// Do two observations describe the same (pid, port, protocol) binding?
pub open spec fn same_triple(a: ProcessInfo, b: ProcessInfo) -> bool {
    a.pid == b.pid && a.port == b.port && a.protocol == b.protocol
}

/// Does no (pid, port, protocol) binding appear twice in `s`?
pub open spec fn no_dup_triples(s: Seq<ProcessInfo>) -> bool {
    forall|i: int, j: int| 0 <= i < j < s.len() ==> !same_triple(#[trigger] s[i], #[trigger] s[j])
}

/// Does every record of `s` carry a pid the platform's native signed
/// integer can hold, so that it can be signalled?
pub open spec fn pids_in_range(s: Seq<ProcessInfo>) -> bool {
    forall|i: int| 0 <= i < s.len() ==> (#[trigger] s[i]).pid <= MAX_PID
}

/// Does every record of `s` carry a nonzero port? The full listing scans
/// only bound (nonzero) local ports.
pub open spec fn ports_nonzero(s: Seq<ProcessInfo>) -> bool {
    forall|i: int| 0 <= i < s.len() ==> (#[trigger] s[i]).port >= 1
}

/// Does no pid appear twice in `s`?
pub open spec fn no_dup_pids(s: Seq<ProcessInfo>) -> bool {
    forall|i: int, j: int| 0 <= i < j < s.len() ==> (#[trigger] s[i]).pid != (#[trigger] s[j]).pid
}

/// Places one observation into a listing kept ordered by (port, pid),
/// dropping it if its (pid, port, protocol) binding is already recorded.
pub fn insert_binding(out: &mut Vec<ProcessInfo>, obs: ProcessInfo)
    requires
        sorted_by_port_pid(old(out)@),
        no_dup_triples(old(out)@),
    ensures
        sorted_by_port_pid(final(out)@),
        no_dup_triples(final(out)@),
        old(out)@.len() <= final(out)@.len() <= old(out)@.len() + 1,
        forall|k: int|
            0 <= k < final(out)@.len() ==> old(out)@.contains(#[trigger] final(out)@[k])
                || final(out)@[k] == obs,
        exists|k: int| 0 <= k < final(out)@.len() && same_triple(#[trigger] final(out)@[k], obs),
        forall|x: ProcessInfo| old(out)@.contains(x) ==> final(out)@.contains(x),
{
    let n = out.len();
    let mut i: usize = 0;
    while i < n
        invariant
            i <= n == out@.len(),
            out@ == old(out)@,
            sorted_by_port_pid(old(out)@),
            no_dup_triples(old(out)@),
            forall|k: int| 0 <= k < i ==> !same_triple(#[trigger] out@[k], obs),
        decreases n - i,
    {
        if out[i].pid == obs.pid && out[i].port == obs.port && out[i].protocol == obs.protocol {
            proof {
                assert(same_triple(out@[i as int], obs));
            }
            return;
        }
        i = i + 1;
    }
    let mut pos: usize = 0;
    while pos < n && (out[pos].port < obs.port || (out[pos].port == obs.port && out[pos].pid
        <= obs.pid))
        invariant
            pos <= n == out@.len(),
            out@ == old(out)@,
            forall|k: int| 0 <= k < pos ==> key_le(#[trigger] out@[k], obs),
        decreases n - pos,
    {
        pos = pos + 1;
    }
    let ghost pre = out@;
    out.insert(pos, obs);
    proof {
        pre.insert_ensures(pos as int, obs);
        assert forall|a: int, b: int| 0 <= a < b < out@.len() implies key_le(
            #[trigger] out@[a],
            #[trigger] out@[b],
        ) by {
            if b < pos {
            } else if a < pos && b == pos {
            } else if a < pos && b > pos {
                assert(out@[b] == pre[b - 1]);
                if a == b - 1 {
                } else {
                    assert(key_le(pre[a], pre[b - 1]));
                }
            } else if a == pos {
                assert(pos < pre.len());
                assert(!key_le(pre[pos as int], obs));
                if b - 1 > pos {
                    assert(key_le(pre[pos as int], pre[b - 1]));
                }
            } else {
                assert(out@[a] == pre[a - 1] && out@[b] == pre[b - 1]);
                assert(key_le(pre[a - 1], pre[b - 1]));
            }
        }
        assert forall|a: int, b: int| 0 <= a < b < out@.len() implies !same_triple(
            #[trigger] out@[a],
            #[trigger] out@[b],
        ) by {
            if a == pos {
                assert(out@[b] == pre[b - 1]);
            } else if b == pos {
                assert(out@[a] == pre[a]);
            } else {
                let a0: int = if a < pos { a } else { a - 1 };
                let b0: int = if b < pos { b } else { b - 1 };
                assert(out@[a] == pre[a0] && out@[b] == pre[b0]);
                assert(!same_triple(pre[a0], pre[b0]));
            }
        }
        assert(out@[pos as int] == obs);
        assert forall|k: int|
            0 <= k < out@.len() implies pre.contains(#[trigger] out@[k]) || out@[k] == obs by {
            if k < pos {
                assert(out@[k] == pre[k]);
            } else if k > pos {
                assert(out@[k] == pre[k - 1]);
            }
        }
        assert forall|x: ProcessInfo| pre.contains(x) implies out@.contains(x) by {
            let w = choose|w: int| 0 <= w < pre.len() && pre[w] == x;
            if w < pos {
                assert(out@[w] == x);
            } else {
                assert(out@[w + 1] == x);
            }
        }
    }
}

/// Answers "which processes are bound to port P?" for the host the library
/// was built for; every backend keeps the same contract, whatever its
/// resolution mechanism.
pub trait PortScanner {
    /// All bindings (TCP and UDP, v4 and v6) currently matching `port`,
    /// at most one record per process. An empty result means nothing is
    /// bound; it is not an error. An error means the host's kernel state
    /// could not be read at all, or the platform has no backend.
    fn find_processes_by_port(&self, port: u16) -> (r: Result<Vec<ProcessInfo>, KillportError>)
        ensures
            r matches Ok(v) ==> (forall|i: int|
                0 <= i < v@.len() ==> (#[trigger] v@[i]).port == port) && pids_in_range(v@)
                && no_dup_pids(v@),
    ;

    /// Every (port, protocol, process) binding on the host, deduplicated
    /// by (pid, port, protocol) and ordered by (port ascending, pid
    /// ascending) for deterministic display.
    fn find_all_listening(&self) -> (r: Result<Vec<ProcessInfo>, KillportError>)
        ensures
            r matches Ok(v) ==> sorted_by_port_pid(v@) && no_dup_triples(v@) && pids_in_range(v@)
                && ports_nonzero(v@),
    ;
}

/// The backend selected for this build of the library, dispatching under
/// the shared contract. A host without a working backend gets the variant
/// whose every call fails with the explicit "unsupported platform" error.
pub enum Scanner {
    Linux(LinuxScanner),
    Unsupported(WindowsScanner),
}

impl Scanner {
    /// All bindings currently matching `port`, under the contract of
    /// [`PortScanner::find_processes_by_port`].
    pub fn find_processes_by_port(&self, port: u16) -> (r: Result<Vec<ProcessInfo>, KillportError>)
        ensures
            r matches Ok(v) ==> (forall|i: int|
                0 <= i < v@.len() ==> (#[trigger] v@[i]).port == port) && pids_in_range(v@)
                && no_dup_pids(v@),
    {
        match self {
            Scanner::Linux(s) => s.find_processes_by_port(port),
            Scanner::Unsupported(s) => s.find_processes_by_port(port),
        }
    }

    /// Every binding on the host, under the contract of
    /// [`PortScanner::find_all_listening`].
    pub fn find_all_listening(&self) -> (r: Result<Vec<ProcessInfo>, KillportError>)
        ensures
            r matches Ok(v) ==> sorted_by_port_pid(v@) && no_dup_triples(v@) && pids_in_range(v@)
                && ports_nonzero(v@),
    {
        match self {
            Scanner::Linux(s) => s.find_all_listening(),
            Scanner::Unsupported(s) => s.find_all_listening(),
        }
    }
}

/// The scanner for the host this library was built for. The selection is
/// fixed at build time; an embedder on a host without a backend holds the
/// unsupported variant instead, which keeps the same call contract.
pub fn create_scanner() -> (r: Scanner) {
    Scanner::Linux(LinuxScanner::new())
}

} // verus!
