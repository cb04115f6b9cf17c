//! The watch operation's decision core: one full scan-and-kill sweep over
//! the watched ports. The loop of repeated sweeps — sleeping between them
//! and watching for an interrupt — is the embedding program's job.

use vstd::prelude::*;
use crate::errors::KillportError;
use crate::killer::KillConfig;
use crate::commands::kill::kill_targets;
use crate::process::{KillResult, KillSignal, PortSpec};
use crate::scanner::Scanner;

verus! {

/// What one watch invocation asked for.
#[derive(Debug)]
pub struct WatchOptions {
    pub ports: Vec<PortSpec>,
    pub signal: KillSignal,
    pub graceful: bool,
    pub graceful_timeout_ms: u64,
    pub poll_interval_ms: u64,
}

/// One watch sweep: scans every watched port once and applies the policy
/// to everything found. Every result targets one of the watched ports; a
/// scan failure aborts the sweep.
pub fn sweep(scanner: &Scanner, ports: &Vec<u16>, config: &KillConfig) -> (r: Result<
    Vec<KillResult>,
    KillportError,
>)
    ensures
        r matches Ok(v) ==> (forall|k: int|
            0 <= k < v@.len() ==> ports@.contains((#[trigger] v@[k]).process.port)),
        r matches Ok(v) ==> (config.dry_run ==> forall|k: int|
            0 <= k < v@.len() ==> (#[trigger] v@[k]).success),
{
    let mut all: Vec<KillResult> = Vec::new();
    let mut i: usize = 0;
    while i < ports.len()
        invariant
            i <= ports@.len(),
            forall|k: int|
                0 <= k < all@.len() ==> ports@.contains((#[trigger] all@[k]).process.port),
            config.dry_run ==> (forall|k: int| 0 <= k < all@.len() ==> (#[trigger] all@[k]).success),
        decreases ports@.len() - i,
    {
        let port = ports[i];
        let processes = match scanner.find_processes_by_port(port) {
            Ok(v) => v,
            Err(e) => return Err(e),
        };
        let (mut results, _ok) = kill_targets(&processes, config);
        proof {
            assert(ports@[i as int] == port);
            assert forall|k: int|
                0 <= k < results@.len() implies ports@.contains(
                (#[trigger] results@[k]).process.port,
            ) by {
                assert(results@[k].process == processes@[k]);
                assert(processes@[k].port == port);
            }
            if config.dry_run {
                assert(forall|k: int| 0 <= k < results@.len() ==> (#[trigger] results@[k]).success);
            }
        }
        all.append(&mut results);
        i = i + 1;
    }
    Ok(all)
}

} // verus!
