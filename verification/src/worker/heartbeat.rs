//! Keeping a lease alive while its job is processed.
use std::time::{Duration, SystemTime};
use vstd::prelude::*;

use crate::client::LeaseError;
use crate::time::{self, duration_from_nanos, longer};
use crate::worker::AutoExtend;

verus! {

/// The nanoseconds between two extensions of a lease that has so many left: a
/// third, but no less than a millisecond.
pub open spec fn interval_nanos(lease_nanos: nat) -> nat {
    if lease_nanos / 3 > 1_000_000 {
        lease_nanos / 3
    } else {
        1_000_000
    }
}

/// The time between two extensions of a lease with so much time left.
pub fn heartbeat_interval(lease: Duration) -> (d: Duration)
    ensures
        time::duration_nanos(d) == interval_nanos(time::duration_nanos(lease)),
{
    longer(duration_from_nanos(lease.as_nanos() / 3), Duration::from_millis(1))
}

/// The milliseconds that a lease has left, zero where it has ended.
pub open spec fn remaining_ms(known_expiry_ms: i64, now_ms: i64) -> int {
    let left = known_expiry_ms - now_ms;
    if left <= 0 {
        0
    } else if left > i64::MAX {
        i64::MAX as int
    } else {
        left
    }
}

/// The time to wait before a lease is extended: the explicit interval, or else
/// what follows from the time that the lease has left.
pub fn next_heartbeat(cfg: &AutoExtend, known_expiry_ms: i64, now_ms: i64) -> (d: Duration)
    ensures
        match cfg.explicit_interval {
            Some(i) => d == i,
            None => time::duration_nanos(d) == interval_nanos(
                (remaining_ms(known_expiry_ms, now_ms) * 1_000_000) as nat,
            ),
        },
{
    match cfg.explicit_interval {
        Some(i) => i,
        None => {
            let left: i128 = known_expiry_ms as i128 - now_ms as i128;
            let ms: u64 = if left <= 0 {
                0
            } else if left > i64::MAX as i128 {
                i64::MAX as u64
            } else {
                left as u64
            };
            heartbeat_interval(Duration::from_millis(ms))
        },
    }
}

/// A lease with more than a millisecond left is extended before it ends. With
/// three or more left, no more than a third of it passes first. There is always
/// a millisecond between two extensions.
pub proof fn heartbeat_comes_in_time(lease_nanos: nat)
    ensures
        lease_nanos > 1_000_000 ==> interval_nanos(lease_nanos) < lease_nanos,
        lease_nanos >= 3_000_000 ==> 3 * interval_nanos(lease_nanos) <= lease_nanos,
        interval_nanos(lease_nanos) >= 1_000_000,
{
}

/// What to do after an attempt to extend a lease.
#[derive(Debug, Clone, Copy, PartialEq, Eq, Structural)]
pub enum HeartbeatStep {
    /// Go on extending the lease.
    Continue,
    /// The lease is lost: abort the handler to avoid double processing.
    Abort,
}

/// Whether an error says that the lease now belongs to another.
pub open spec fn is_reassigned(e: LeaseError) -> bool {
    e is AttemptMismatch || e is JobNotFound
}

/// What to do after an attempt to extend a lease: abort where the server
/// reassigned the lease, and where the attempt failed after the known end of
/// the lease. A lease that still holds is worth another attempt.
pub fn after_extend(
    extended: &Result<SystemTime, LeaseError>,
    known_expiry_ms: i64,
    now_ms: i64,
) -> (step: HeartbeatStep)
    ensures
        step == match *extended {
            Ok(_) => HeartbeatStep::Continue,
            Err(e) => if is_reassigned(e) || now_ms >= known_expiry_ms {
                HeartbeatStep::Abort
            } else {
                HeartbeatStep::Continue
            },
        },
{
    match extended {
        Ok(_) => HeartbeatStep::Continue,
        Err(LeaseError::AttemptMismatch) => HeartbeatStep::Abort,
        Err(LeaseError::JobNotFound) => HeartbeatStep::Abort,
        Err(LeaseError::Client(_)) => if now_ms >= known_expiry_ms {
            HeartbeatStep::Abort
        } else {
            HeartbeatStep::Continue
        },
    }
}

} // verus!
