//! The kill operation: expand the requested ports, resolve each to its
//! bound processes, and apply the policy to every one, reporting success
//! or failure per process so one failure cannot hide the rest.

use vstd::prelude::*;
use crate::errors::KillportError;
use crate::killer::{KillConfig, dry_run_label, kill_process};
use crate::process::{KillResult, KillSignal, PortSpec, ProcessInfo, expand_all, flat_covered};
use crate::scanner::{Scanner, create_scanner, pids_in_range};

verus! {

/// What one kill invocation asked for.
#[derive(Debug)]
pub struct KillOptions {
    pub ports: Vec<PortSpec>,
    pub signal: KillSignal,
    pub graceful: bool,
    pub graceful_timeout_ms: u64,
    pub dry_run: bool,
}

/// Everything that happened on one requested port: no results means
/// nothing was bound to it.
#[derive(Debug)]
pub struct PortKillOutcome {
    pub port: u16,
    pub results: Vec<KillResult>,
}

/// Does every result of the outcome target the outcome's own port?
pub open spec fn outcome_wf(o: PortKillOutcome) -> bool {
    forall|j: int| 0 <= j < o.results@.len() ==> (#[trigger] o.results@[j]).process.port == o.port
}

/// Did every attempt of the outcome succeed? (Trivially yes when nothing
/// was bound.)
pub open spec fn outcome_succeeded(o: PortKillOutcome) -> bool {
    forall|j: int| 0 <= j < o.results@.len() ==> (#[trigger] o.results@[j]).success
}

/// The ports of a list of outcomes, in order.
pub open spec fn outcome_ports(s: Seq<PortKillOutcome>) -> Seq<u16> {
    Seq::new(s.len(), |i: int| s[i].port)
}

/// Does every result of every outcome target its outcome's own port?
pub open spec fn all_outcomes_wf(s: Seq<PortKillOutcome>) -> bool {
    forall|i: int| 0 <= i < s.len() ==> outcome_wf(#[trigger] s[i])
}

/// Did every attempt of every outcome succeed?
pub open spec fn all_outcomes_succeeded(s: Seq<PortKillOutcome>) -> bool {
    forall|i: int| 0 <= i < s.len() ==> outcome_succeeded(#[trigger] s[i])
}

/// Applies the policy to each process in turn: one result per process, in
/// order, and a flag that is true exactly when every attempt succeeded.
pub fn kill_targets(processes: &Vec<ProcessInfo>, config: &KillConfig) -> (r: (
    Vec<KillResult>,
    bool,
))
    requires
        pids_in_range(processes@),
    ensures
        r.0@.len() == processes@.len(),
        forall|i: int| 0 <= i < r.0@.len() ==> (#[trigger] r.0@[i]).process == processes@[i],
        r.1 <==> (forall|i: int| 0 <= i < r.0@.len() ==> (#[trigger] r.0@[i]).success),
        config.dry_run ==> r.1 && (forall|i: int|
            0 <= i < r.0@.len() ==> (#[trigger] r.0@[i]).signal_sent@ == dry_run_label(
                config.signal,
            )),
{
    let mut results: Vec<KillResult> = Vec::new();
    let mut ok = true;
    let mut i: usize = 0;
    while i < processes.len()
        invariant
            pids_in_range(processes@),
            i <= processes@.len(),
            results@.len() == i,
            forall|k: int| 0 <= k < i ==> (#[trigger] results@[k]).process == processes@[k],
            ok <==> (forall|k: int| 0 <= k < i ==> (#[trigger] results@[k]).success),
            config.dry_run ==> ok && (forall|k: int|
                0 <= k < i ==> (#[trigger] results@[k]).signal_sent@ == dry_run_label(
                    config.signal,
                )),
        decreases processes@.len() - i,
    {
        let res = kill_process(&processes[i], config);
        let ghost gres = res;
        if !res.success {
            ok = false;
        }
        let ghost pre = results@;
        results.push(res);
        proof {
            assert(results@ == pre.push(gres));
            assert(results@[i as int] == gres);
            assert(forall|k: int| 0 <= k < pre.len() ==> results@[k] == pre[k]);
        }
        i = i + 1;
    }
    (results, ok)
}

/// The whole kill operation: one outcome per requested port, in request
/// order, every result targeting its own port, and an overall flag that is
/// true exactly when every attempt succeeded. A port with nothing bound
/// gets an empty outcome; a scan failure aborts the operation.
pub fn execute(opts: &KillOptions) -> (r: Result<(Vec<PortKillOutcome>, bool), KillportError>)
    ensures
        r matches Ok(rep) ==> outcome_ports(rep.0@) == flat_covered(opts.ports@),
        r matches Ok(rep) ==> all_outcomes_wf(rep.0@),
        r matches Ok(rep) ==> (rep.1 <==> all_outcomes_succeeded(rep.0@)),
        r matches Ok(rep) ==> (opts.dry_run ==> rep.1),
{
    let scanner = create_scanner();
    let config = KillConfig {
        signal: opts.signal,
        graceful: opts.graceful,
        graceful_timeout_ms: opts.graceful_timeout_ms,
        dry_run: opts.dry_run,
    };
    let ports = expand_all(&opts.ports);
    let mut outs: Vec<PortKillOutcome> = Vec::new();
    let mut all_ok = true;
    let mut i: usize = 0;
    while i < ports.len()
        invariant
            i <= ports@.len(),
            outs@.len() == i,
            forall|k: int| 0 <= k < i ==> (#[trigger] outs@[k]).port == ports@[k],
            all_outcomes_wf(outs@),
            all_ok <==> all_outcomes_succeeded(outs@),
            config.dry_run == opts.dry_run,
            opts.dry_run ==> all_ok,
        decreases ports@.len() - i,
    {
        let port = ports[i];
        let processes = match scanner.find_processes_by_port(port) {
            Ok(v) => v,
            Err(e) => return Err(e),
        };
        let (results, ok) = kill_targets(&processes, &config);
        let outcome = PortKillOutcome { port, results };
        let ghost gout = outcome;
        proof {
            assert(outcome_wf(gout));
            assert(outcome_succeeded(gout) <==> ok);
        }
        let ghost pre = outs@;
        outs.push(outcome);
        proof {
            assert(outs@ == pre.push(gout));
            assert(outs@[i as int] == gout);
            assert(forall|k: int| 0 <= k < pre.len() ==> outs@[k] == pre[k]);
        }
        if !ok {
            all_ok = false;
        }
        i = i + 1;
    }
    proof {
        assert(outcome_ports(outs@) =~= ports@);
    }
    Ok((outs, all_ok))
}

} // verus!
