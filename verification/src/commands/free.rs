//! The free-port search: the first port of an ascending range with nothing
//! bound to it.

use vstd::prelude::*;
use crate::errors::KillportError;
use crate::scanner::create_scanner;

verus! {

/// What one free-port search asked for: scan `start..=max` upward.
#[derive(Debug, Clone, Copy, PartialEq, Eq, Structural)]
pub struct FreeOptions {
    pub start: u16,
    pub max: u16,
}

/// Searches `start..=max` in ascending order and reports the first port
/// whose scan found nothing bound; `None` when every port in the range was
/// occupied (or the range is empty). A scan failure aborts the search.
pub fn execute(opts: &FreeOptions) -> (r: Result<Option<u16>, KillportError>)
    ensures
        r matches Ok(p) ==> (p matches Some(port) ==> opts.start <= port <= opts.max),
        opts.start > opts.max ==> (r matches Ok(p) && p is None),
{
    let scanner = create_scanner();
    let mut cur: u32 = opts.start as u32;
    while cur <= opts.max as u32
        invariant
            opts.start <= cur,
            cur <= 65536,
        decreases opts.max as u32 + 1 - cur,
    {
        let port = cur as u16;
        let processes = match scanner.find_processes_by_port(port) {
            Ok(v) => v,
            Err(e) => return Err(e),
        };
        if processes.len() == 0 {
            return Ok(Some(port));
        }
        cur = cur + 1;
    }
    Ok(None)
}

} // verus!
