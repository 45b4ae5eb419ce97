//! Durations, points in time, and their wire forms.
use std::time::{Duration, SystemTime};
use vstd::prelude::*;

use crate::pb;

verus! {

/// Nanoseconds in a second.
pub const NANOS_PER_SEC: u128 = 1_000_000_000;

/// Nanoseconds in a millisecond.
pub const NANOS_PER_MILLI: u128 = 1_000_000;

/// A point in time, as the operating system represents it.
#[verifier::external_type_specification]
#[verifier::external_body]
pub struct ExSystemTime(SystemTime);

/// The length of a duration in nanoseconds: what `Duration::as_nanos` returns.
pub uninterp spec fn duration_nanos(d: Duration) -> nat;

/// The signed distance of a point in time from the Unix epoch, in nanoseconds:
/// what `SystemTime::duration_since(UNIX_EPOCH)` returns at or after the epoch.
pub uninterp spec fn system_time_nanos(t: SystemTime) -> int;

/// `Duration::as_nanos` returns the total number of nanoseconds. Whole seconds
/// fit in a `u64`, which bounds it.
pub assume_specification[ Duration::as_nanos ](d: &Duration) -> (r: u128)
    ensures
        r == duration_nanos(*d),
        r < 18_446_744_073_709_551_616 * 1_000_000_000,
;

/// `Duration::from_secs` makes a duration of that many whole seconds.
pub assume_specification[ Duration::from_secs ](secs: u64) -> (d: Duration)
    ensures
        duration_nanos(d) == secs * 1_000_000_000,
;

/// `Duration::from_millis` makes a duration of that many milliseconds.
pub assume_specification[ Duration::from_millis ](millis: u64) -> (d: Duration)
    ensures
        duration_nanos(d) == millis * 1_000_000,
;

/// `Duration::new` adds whole seconds and nanoseconds. It carries, and can
/// panic, where there is a second or more of nanoseconds; that is left out.
pub assume_specification[ Duration::new ](secs: u64, nanos: u32) -> (d: Duration)
    requires
        nanos < 1_000_000_000,
    ensures
        duration_nanos(d) == secs * 1_000_000_000 + nanos,
;

/// Whether some point in time lies so many nanoseconds from the Unix epoch.
/// Which ones do rests on the operating system.
pub open spec fn can_hold(nanos: int) -> bool {
    exists|u: SystemTime| #[trigger] system_time_nanos(u) == nanos
}

/// `SystemTime::checked_add` moves a point in time forward. It succeeds where
/// the sum can be represented. The clock's resolution differs between systems,
/// and divides a millisecond, so a sum that lies between two points in time may
/// come out as one of them; no clause says when.
pub assume_specification[ SystemTime::checked_add ](t: &SystemTime, d: Duration) -> (r: Option<
    SystemTime,
>)
    ensures
        can_hold(system_time_nanos(*t) + duration_nanos(d)) ==> r is Some,
        r matches Some(u) ==> system_time_nanos(*t) % 1_000_000 == 0 ==> system_time_nanos(u)
            / 1_000_000 == (system_time_nanos(*t) + duration_nanos(d)) / 1_000_000,
        r matches Some(u) ==> duration_nanos(d) % 1_000_000 == 0 ==> system_time_nanos(u)
            == system_time_nanos(*t) + duration_nanos(d),
;

/// `SystemTime::clone` copies a point in time.
pub assume_specification[ <SystemTime as Clone>::clone ](t: &SystemTime) -> (r: SystemTime)
    ensures
        r == *t,
;

/// `SystemTime::now` reads the machine's clock: nothing is promised of it.
pub assume_specification[ SystemTime::now ]() -> SystemTime
;

/// `SystemTime::UNIX_EPOCH` is the origin of the time scale.
#[verifier::external_body]
fn unix_epoch() -> (t: SystemTime)
    ensures
        system_time_nanos(t) == 0,
{
    SystemTime::UNIX_EPOCH
}

/// `SystemTime::duration_since(UNIX_EPOCH)` gives the distance from the epoch,
/// and an error for a point before it.
#[verifier::external_body]
fn since_epoch(t: SystemTime) -> (r: Option<Duration>)
    ensures
        r is Some <==> system_time_nanos(t) >= 0,
        r matches Some(d) ==> duration_nanos(d) == system_time_nanos(t),
{
    t.duration_since(SystemTime::UNIX_EPOCH).ok()
}

/// The signed 64-bit integer with the same low 64 bits as `n`.
pub open spec fn wrap_i64(n: nat) -> int {
    let low = n as int % 0x1_0000_0000_0000_0000;
    if low < 0x8000_0000_0000_0000 {
        low
    } else {
        low - 0x1_0000_0000_0000_0000
    }
}

/// Keeps the low 64 bits of `n` as a signed integer.
fn truncate_i64(n: u128) -> (r: i64)
    ensures
        r == wrap_i64(n as nat),
{
    let r: i64 = #[verifier::truncate] (n as i64);
    assert(r == if n % 0x1_0000_0000_0000_0000 < 0x8000_0000_0000_0000 {
        (n % 0x1_0000_0000_0000_0000) as int
    } else {
        (n % 0x1_0000_0000_0000_0000) - 0x1_0000_0000_0000_0000
    }) by (bit_vector)
        requires
            r == n as i64,
    ;
    r
}

/// Keeps the low 64 bits of `n`.
fn truncate_u64(n: u128) -> (r: u64)
    ensures
        r == n % 0x1_0000_0000_0000_0000,
{
    let r: u64 = #[verifier::truncate] (n as u64);
    assert(r == n % 0x1_0000_0000_0000_0000) by (bit_vector)
        requires
            r == n as u64,
    ;
    r
}

/// The length of a duration in whole milliseconds.
pub open spec fn duration_millis(d: Duration) -> nat {
    duration_nanos(d) / 1_000_000
}

/// The whole milliseconds from the Unix epoch to a point at or after it.
pub open spec fn system_time_millis(t: SystemTime) -> nat
    recommends
        system_time_nanos(t) >= 0,
{
    (system_time_nanos(t) / 1_000_000) as nat
}

/// Makes the duration of `n` nanoseconds.
pub fn duration_from_nanos(n: u128) -> (d: Duration)
    requires
        n < 18_446_744_073_709_551_616 * 1_000_000_000,
    ensures
        duration_nanos(d) == n,
{
    Duration::new((n / NANOS_PER_SEC) as u64, (n % NANOS_PER_SEC) as u32)
}

/// Returns the longer of two durations, the second where they are equal.
pub fn longer(a: Duration, b: Duration) -> (d: Duration)
    ensures
        d == if duration_nanos(a) > duration_nanos(b) {
            a
        } else {
            b
        },
{
    if a.as_nanos() > b.as_nanos() {
        a
    } else {
        b
    }
}

/// The whole milliseconds of a duration, modulo `2^64`: how durations are
/// written in requests.
pub fn duration_to_millis(d: Duration) -> (ms: u64)
    ensures
        ms == duration_millis(d) % 0x1_0000_0000_0000_0000,
{
    truncate_u64(d.as_nanos() / NANOS_PER_MILLI)
}

/// The point in time `ms` milliseconds after the Unix epoch.
///
/// `None` for a negative `ms`, and where the operating system cannot represent
/// the time.
pub fn millis_to_system_time(ms: i64) -> (r: Option<SystemTime>)
    ensures
        is_time_of(ms, r),
{
    if ms < 0 {
        return None;
    }
    let d = Duration::from_millis(ms as u64);
    assert((ms * 1_000_000) % 1_000_000 == 0) by (nonlinear_arith);
    unix_epoch().checked_add(d)
}

/// Milliseconds from the Unix epoch to `t`, modulo `2^64` as a signed integer;
/// `None` for a point before the epoch.
pub fn system_time_to_epoch_millis(t: SystemTime) -> (r: Option<i64>)
    ensures
        r is Some <==> system_time_nanos(t) >= 0,
        r matches Some(ms) ==> ms == wrap_i64(system_time_millis(t)),
{
    match since_epoch(t) {
        Some(d) => Some(truncate_i64(d.as_nanos() / NANOS_PER_MILLI)),
        None => None,
    }
}

/// Milliseconds from the Unix epoch to `t`, zero for a point before the epoch.
pub fn system_time_to_millis(t: SystemTime) -> (ms: i64)
    ensures
        ms == epoch_millis(t),
{
    match system_time_to_epoch_millis(t) {
        Some(ms) => ms,
        None => 0,
    }
}

/// The machine's clock in milliseconds from the Unix epoch.
///
/// What the clock says is not known here; `system_time_to_millis` states what
/// is made of it.
pub fn now_millis() -> (ms: i64)
    ensures
        exists|t: SystemTime| #[trigger]
            call_ensures(SystemTime::now, (), t) && ms == epoch_millis(t),
{
    let t = SystemTime::now();
    system_time_to_millis(t)
}

/// What reading `ms` milliseconds since the Unix epoch gives: nothing for a
/// negative number, and otherwise that point in time, exactly where the
/// operating system can represent it. The epoch itself it can.
pub open spec fn is_time_of(ms: i64, r: Option<SystemTime>) -> bool {
    &&& r is Some <==> ms >= 0 && can_hold(ms * 1_000_000)
    &&& ms == 0 ==> r is Some
    &&& r matches Some(t) ==> system_time_nanos(t) == ms * 1_000_000
}

/// The milliseconds since the Unix epoch that stand for a point in time: zero
/// before the epoch, and modulo `2^64` as a signed integer after it.
pub open spec fn epoch_millis(t: SystemTime) -> int {
    if system_time_nanos(t) < 0 {
        0
    } else {
        wrap_i64(system_time_millis(t))
    }
}

/// The wire form of a duration of so many nanoseconds. Seconds beyond the
/// largest that the wire can carry are cut off.
pub open spec fn proto_duration_of(nanos: nat) -> pb::ProtoDuration {
    let secs = nanos / 1_000_000_000;
    pb::ProtoDuration {
        seconds: (if secs > i64::MAX {
            i64::MAX as nat
        } else {
            secs
        }) as i64,
        nanos: (nanos % 1_000_000_000) as i32,
    }
}

/// Writes a duration as whole seconds and the nanoseconds beyond them.
pub fn duration_to_proto(d: Duration) -> (p: pb::ProtoDuration)
    ensures
        p == proto_duration_of(duration_nanos(d)),
{
    let n: u128 = d.as_nanos();
    let secs: u128 = n / NANOS_PER_SEC;
    pb::ProtoDuration {
        seconds: if secs > i64::MAX as u128 {
            i64::MAX
        } else {
            secs as i64
        },
        nanos: (n % NANOS_PER_SEC) as i32,
    }
}

/// Whether a timestamp on the wire is at or after the Unix epoch and has less
/// than a second of nanoseconds.
pub open spec fn is_normal_timestamp(ts: pb::Timestamp) -> bool {
    ts.seconds >= 0 && 0 <= ts.nanos < 1_000_000_000
}

/// The nanoseconds from the Unix epoch to a timestamp on the wire.
pub open spec fn timestamp_nanos(ts: pb::Timestamp) -> int {
    ts.seconds * 1_000_000_000 + ts.nanos
}

/// The whole milliseconds of a time in nanoseconds.
pub open spec fn epoch_nanos_to_millis(nanos: int) -> int {
    nanos / 1_000_000
}

/// Reads a timestamp from the wire.
///
/// `None` where it is not set, where it lies before the Unix epoch or is not
/// normal, and where the operating system cannot represent the time. The
/// resolution of the system's clock bounds what is kept below a millisecond.
pub fn timestamp_to_system_time(ts: Option<pb::Timestamp>) -> (r: Option<SystemTime>)
    ensures
        ts is None ==> r is None,
        ts matches Some(s) ==> !is_normal_timestamp(s) ==> r is None,
        ts matches Some(s) ==> is_normal_timestamp(s) && can_hold(timestamp_nanos(s)) ==> r is Some,
        ts matches Some(s) ==> s.nanos % 1_000_000 == 0 ==> (r is Some <==> is_normal_timestamp(s)
            && can_hold(timestamp_nanos(s))),
        ts matches Some(s) ==> s.seconds == 0 && s.nanos == 0 ==> r is Some,
        r matches Some(t) ==> epoch_nanos_to_millis(system_time_nanos(t)) == epoch_nanos_to_millis(
            timestamp_nanos(ts->0),
        ),
        r matches Some(t) ==> ts->0.nanos % 1_000_000 == 0 ==> system_time_nanos(t)
            == timestamp_nanos(ts->0),
{
    match ts {
        Some(s) => {
            if s.seconds < 0 || s.nanos < 0 || s.nanos >= 1_000_000_000 {
                return None;
            }
            let ghost n: int = s.seconds * 1_000_000_000 + s.nanos;
            assert(s.nanos % 1_000_000 == 0 ==> n % 1_000_000 == 0) by (nonlinear_arith)
                requires
                    n == s.seconds * 1_000_000_000 + s.nanos,
            ;
            unix_epoch().checked_add(Duration::new(s.seconds as u64, s.nanos as u32))
        },
        None => None,
    }
}

/// The machine's clock in nanoseconds from the Unix epoch; `None` where it says
/// a time before the epoch.
pub fn since_epoch_nanos() -> (r: Option<u128>)
    ensures
        exists|t: SystemTime| #[trigger]
            call_ensures(SystemTime::now, (), t) && match r {
                Some(n) => n == system_time_nanos(t),
                None => system_time_nanos(t) < 0,
            },
{
    let t = SystemTime::now();
    match since_epoch(t) {
        Some(d) => Some(d.as_nanos()),
        None => None,
    }
}

/// Writing a point in time as milliseconds gives back the milliseconds that it
/// was read from.
pub proof fn millis_round_trip(ms: i64, t: SystemTime)
    requires
        is_time_of(ms, Some(t)),
    ensures
        epoch_millis(t) == ms,
{
    assert((ms * 1_000_000) / 1_000_000 == ms) by (nonlinear_arith);
}

} // verus!
