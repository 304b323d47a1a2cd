//! Time values: std's `SystemTime` and `Duration` are held as opaque values. What
//! the library reads of them goes through the trusted functions below, whose results
//! are named: a `Duration`'s whole seconds and sub-second nanoseconds, and a
//! `SystemTime`'s distance from the epoch.

use vstd::prelude::*;
use std::time::{Duration, SystemTime};

verus! {

/// `std::time::SystemTime`, carried through the library without being looked into.
#[verifier::external_type_specification]
#[verifier::external_body]
pub struct ExSystemTime(SystemTime);

/// What `Duration::as_secs` gives for `d`: its whole seconds.
pub uninterp spec fn duration_secs_of(d: Duration) -> u64;

/// What `Duration::subsec_nanos` gives for `d`: the nanoseconds of its fractional
/// second.
pub uninterp spec fn duration_subsec_nanos_of(d: Duration) -> u32;

/// The length of `d` in nanoseconds: its whole seconds and the nanoseconds of its
/// fractional second.
pub open spec fn spec_duration_nanos(d: Duration) -> int {
    duration_secs_of(d) * 1_000_000_000 + duration_subsec_nanos_of(d)
}

/// Calls `Duration::as_secs`: the whole seconds of `d`.
#[verifier::external_body]
fn duration_secs(d: &Duration) -> (r: u64)
    ensures
        r == duration_secs_of(*d),
{
    d.as_secs()
}

/// Calls `Duration::subsec_nanos`: the fractional part of `d` in nanoseconds, which
/// std documents to be less than one billion.
#[verifier::external_body]
fn duration_subsec_nanos(d: &Duration) -> (r: u32)
    ensures
        r == duration_subsec_nanos_of(*d),
        r < 1_000_000_000,
{
    d.subsec_nanos()
}

/// Calls `Duration::as_nanos`: the total number of nanoseconds `d` contains, which is
/// its whole seconds times one billion plus the nanoseconds of its fractional second.
#[verifier::external_body]
pub(crate) fn duration_nanos(d: &Duration) -> (r: u128)
    ensures
        r == spec_duration_nanos(*d),
{
    d.as_nanos()
}

/// Calls `Duration::from_nanos`, which does not panic: the duration of `nanos`
/// nanoseconds, whose whole seconds are `nanos / 1e9` and whose fractional second
/// holds the rest.
#[verifier::external_body]
pub(crate) fn duration_from_nanos(nanos: u32) -> (r: Duration)
    ensures
        duration_secs_of(r) == nanos / 1_000_000_000,
        duration_subsec_nanos_of(r) == nanos % 1_000_000_000,
{
    Duration::from_nanos(nanos as u64)
}

/// What `SystemTime::duration_since(UNIX_EPOCH)` gives for `t`: `Ok` with the time
/// elapsed since the epoch, or `Err` with how long before the epoch `t` lies (the
/// duration its `SystemTimeError` carries). A function of `t` alone.
pub uninterp spec fn since_epoch_of(t: SystemTime) -> Result<Duration, Duration>;

/// Calls `SystemTime::duration_since(UNIX_EPOCH)`, handing on the duration of the
/// `SystemTimeError` for a time before the epoch.
#[verifier::external_body]
pub(crate) fn since_unix_epoch(t: &SystemTime) -> (r: Result<Duration, Duration>)
    ensures
        r == since_epoch_of(*t),
{
    match t.duration_since(std::time::UNIX_EPOCH) {
        Ok(d) => Ok(d),
        Err(e) => Err(e.duration()),
    }
}

/// A time to live as the kernel reads it: whole seconds, and nanoseconds below one
/// billion.
#[derive(Clone, Copy, Debug, PartialEq, Eq, Structural)]
pub struct Ttl {
    pub secs: u64,
    pub nanos: u32,
}

/// A point in time as the kernel reads it: seconds relative to the epoch (negative
/// before it), and nanoseconds below one billion.
#[derive(Clone, Copy, Debug, PartialEq, Eq, Structural)]
pub struct Timestamp {
    pub secs: i64,
    pub nanos: u32,
}

impl Ttl {
    /// The time to live `d`, read through `Duration::as_secs` and
    /// `Duration::subsec_nanos`.
    pub fn from_duration(d: &Duration) -> (r: Ttl)
        ensures
            r.secs == duration_secs_of(*d),
            r.nanos == duration_subsec_nanos_of(*d),
            r.nanos < 1_000_000_000,
    {
        Ttl { secs: duration_secs(d), nanos: duration_subsec_nanos(d) }
    }
}

impl Timestamp {
    /// The point in time `t`, as `time_from_system_time` reads it.
    pub fn from_system_time(t: &SystemTime) -> (r: Timestamp)
        ensures
            (r.secs, r.nanos) == spec_system_time(since_epoch_of(*t)),
            r.nanos < 1_000_000_000,
    {
        let (secs, nanos) = time_from_system_time(t);
        Timestamp { secs, nanos }
    }
}

/// Two's complement negation that wraps at the minimum.
pub open spec fn spec_wrapping_neg(x: i64) -> i64 {
    if x == i64::MIN { x } else { (-x) as i64 }
}

/// The kernel's encoding of a time relative to the epoch: `secs` and `nanos` are the
/// distance from the epoch, `after_epoch` its direction. A time before the epoch gets
/// negative seconds (wrapping, as a two's complement negation does, at the extreme);
/// its nanoseconds stay as they are.
pub open spec fn spec_epoch_time(after_epoch: bool, secs: u64, nanos: u32) -> (i64, u32) {
    if after_epoch {
        (secs as i64, nanos)
    } else {
        (spec_wrapping_neg(secs as i64), nanos)
    }
}

/// Encode a distance from the epoch the way the kernel reads times.
pub fn epoch_time(after_epoch: bool, secs: u64, nanos: u32) -> (r: (i64, u32))
    ensures
        r == spec_epoch_time(after_epoch, secs, nanos),
{
    let s = secs as i64;
    if after_epoch {
        (s, nanos)
    } else if s == i64::MIN {
        (s, nanos)
    } else {
        (-s, nanos)
    }
}

/// The kernel's encoding of a time whose distance from the epoch is `since`: `Ok`
/// for a time after the epoch, `Err` for one before it.
pub open spec fn spec_system_time(since: Result<Duration, Duration>) -> (i64, u32) {
    match since {
        Ok(d) => spec_epoch_time(true, duration_secs_of(d), duration_subsec_nanos_of(d)),
        Err(d) => spec_epoch_time(false, duration_secs_of(d), duration_subsec_nanos_of(d)),
    }
}

/// Seconds and nanoseconds of `t` relative to the epoch, as the kernel expects them.
pub fn time_from_system_time(t: &SystemTime) -> (r: (i64, u32))
    ensures
        r == spec_system_time(since_epoch_of(*t)),
        r.1 < 1_000_000_000,
{
    match since_unix_epoch(t) {
        Ok(d) => epoch_time(true, duration_secs(&d), duration_subsec_nanos(&d)),
        Err(d) => epoch_time(false, duration_secs(&d), duration_subsec_nanos(&d)),
    }
}


/// The kernel reads a time after the epoch as its distance from the epoch, and a time
/// before the epoch as the negated distance in whole seconds with the nanoseconds
/// kept: for a `SystemTime` `since` seconds and `nanos` nanoseconds after the epoch
/// (`Ok`) or before it (`Err`), with seconds that fit an `i64`.
pub proof fn law_system_time_sign(since: Result<Duration, Duration>)
    ensures
        since matches Ok(d) ==> (duration_secs_of(d) <= i64::MAX ==> spec_system_time(since) == (
            duration_secs_of(d) as i64,
            duration_subsec_nanos_of(d),
        )),
        since matches Err(d) ==> (duration_secs_of(d) <= i64::MAX ==> {
            &&& spec_system_time(since).0 == -(duration_secs_of(d) as int)
            &&& spec_system_time(since).1 == duration_subsec_nanos_of(d)
        }),
{
}

} // verus!
