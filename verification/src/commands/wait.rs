//! The wait operation's decision core. The loop around it — sleeping,
//! scanning, and watching for an interrupt — is the embedding program's
//! job; each 100ms-scale sleep is a natural interruption point. Every
//! decision the loop takes between two sleeps is made and verified here.

use vstd::prelude::*;
use crate::process::WaitCondition;

verus! {

/// What one wait invocation asked for: a port, the condition to wait for,
/// a wall-clock timeout (zero means wait forever), and the poll interval.
#[derive(Debug, Clone, Copy, PartialEq, Eq, Structural)]
pub struct WaitOptions {
    pub port: u16,
    pub condition: WaitCondition,
    pub timeout_secs: u64,
    pub poll_interval_ms: u64,
}

/// Is the awaited condition met by a scan: a free wait is met exactly when
/// the scan found nothing, an occupied wait exactly when it found
/// something?
pub open spec fn condition_met_spec(is_free: bool, condition: WaitCondition) -> bool {
    match condition {
        WaitCondition::Free => is_free,
        WaitCondition::Occupied => !is_free,
    }
}

/// Decides whether one poll's scan meets the awaited condition; `is_free`
/// is whether the scan found nothing bound.
pub fn condition_met(is_free: bool, condition: WaitCondition) -> (r: bool)
    ensures
        r == condition_met_spec(is_free, condition),
{
    match condition {
        WaitCondition::Free => is_free,
        WaitCondition::Occupied => !is_free,
    }
}

/// Decides whether the wait has run out of time: never with a zero
/// timeout (wait forever), otherwise exactly when the elapsed wall-clock
/// milliseconds reach the timeout.
pub fn wait_timed_out(elapsed_ms: u64, timeout_secs: u64) -> (r: bool)
    ensures
        r == (timeout_secs != 0 && elapsed_ms >= timeout_secs * 1000),
{
    if timeout_secs == 0 {
        false
    } else if timeout_secs > u64::MAX / 1000 {
        proof {
            assert(timeout_secs * 1000 > u64::MAX) by (nonlinear_arith)
                requires
                    timeout_secs > u64::MAX / 1000,
            ;
        }
        false
    } else {
        proof {
            assert(timeout_secs * 1000 <= u64::MAX) by (nonlinear_arith)
                requires
                    timeout_secs <= u64::MAX / 1000,
            ;
        }
        elapsed_ms >= timeout_secs * 1000
    }
}

} // verus!
