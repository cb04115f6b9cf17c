//! The list operation: either every binding on the host, or the bindings
//! of each requested port, in request order.

use vstd::prelude::*;
use crate::errors::KillportError;
use crate::process::{PortSpec, ProcessInfo, expand_all, flat_covered};
use crate::scanner::{Scanner, create_scanner, no_dup_triples, sorted_by_port_pid};

verus! {

/// What one list invocation asked for; no ports means "everything bound".
#[derive(Debug)]
pub struct ListOptions {
    pub ports: Vec<PortSpec>,
}

/// The bindings observed on one requested port.
#[derive(Debug)]
pub struct PortListing {
    pub port: u16,
    pub processes: Vec<ProcessInfo>,
}

/// Does every record of the listing carry the listing's own port?
pub open spec fn listing_wf(l: PortListing) -> bool {
    forall|j: int| 0 <= j < l.processes@.len() ==> (#[trigger] l.processes@[j]).port == l.port
}

/// The ports of a list of listings, in order.
pub open spec fn listing_ports(s: Seq<PortListing>) -> Seq<u16> {
    Seq::new(s.len(), |i: int| s[i].port)
}

/// What a list operation found.
#[derive(Debug)]
pub enum ListReport {
    /// Every binding on the host, ordered by (port, pid), no binding
    /// recorded twice.
    All(Vec<ProcessInfo>),
    /// One listing per requested port, in request order.
    PerPort(Vec<PortListing>),
}

/// The whole list operation: with no ports requested, the full ordered
/// listing; otherwise one listing per requested port, in request order,
/// every record carrying its own port. A scan failure aborts the
/// operation.
pub fn execute(opts: &ListOptions) -> (r: Result<ListReport, KillportError>)
    ensures
        r matches Ok(rep) ==> match rep {
            ListReport::All(v) => opts.ports@.len() == 0 && sorted_by_port_pid(v@)
                && no_dup_triples(v@),
            ListReport::PerPort(ls) => opts.ports@.len() > 0 && listing_ports(ls@)
                == flat_covered(opts.ports@) && (forall|i: int|
                0 <= i < ls@.len() ==> listing_wf(#[trigger] ls@[i])),
        },
{
    let scanner = create_scanner();
    if opts.ports.len() == 0 {
        let all = match scanner.find_all_listening() {
            Ok(v) => v,
            Err(e) => return Err(e),
        };
        return Ok(ListReport::All(all));
    }
    let ports = expand_all(&opts.ports);
    let mut listings: Vec<PortListing> = Vec::new();
    let mut i: usize = 0;
    while i < ports.len()
        invariant
            i <= ports@.len(),
            listings@.len() == i,
            forall|k: int| 0 <= k < i ==> (#[trigger] listings@[k]).port == ports@[k],
            forall|k: int| 0 <= k < i ==> listing_wf(#[trigger] listings@[k]),
        decreases ports@.len() - i,
    {
        let port = ports[i];
        let processes = match scanner.find_processes_by_port(port) {
            Ok(v) => v,
            Err(e) => return Err(e),
        };
        let listing = PortListing { port, processes };
        proof {
            assert(listing_wf(listing));
        }
        listings.push(listing);
        i = i + 1;
    }
    proof {
        assert(listing_ports(listings@) =~= ports@);
    }
    Ok(ListReport::PerPort(listings))
}

} // verus!
