//! Instants and durations as plain integers, and their conversion to
//! microseconds since the Unix epoch.

use vstd::prelude::*;

verus! {

/// An instant: `secs` seconds and `nanos` nanoseconds after the Unix epoch
/// (`secs` may be negative for instants before it).
#[derive(Clone, Copy, Debug, PartialEq, Eq, Structural)]
pub struct SysTime {
    pub secs: i64,
    pub nanos: u32,
}

/// A non-negative span of time: `secs` seconds and `nanos` nanoseconds.
#[derive(Clone, Copy, Debug, PartialEq, Eq, Structural)]
pub struct Duration {
    pub secs: u64,
    pub nanos: u32,
}

pub const NANOS_PER_SEC: u32 = 1_000_000_000;

pub const NANOS_PER_MICRO: u32 = 1_000;

pub const MICROS_PER_SEC: u64 = 1_000_000;

/// Nanoseconds from the Unix epoch to `s`.
pub open spec fn nanos_since_epoch(s: SysTime) -> int {
    s.secs * 1_000_000_000 + s.nanos
}

/// Whole microseconds in `d`.
pub open spec fn duration_micros(d: Duration) -> int {
    d.secs * 1_000_000 + d.nanos / 1_000
}

/// Whole microseconds from the Unix epoch to `s`, when `s` is not before the
/// epoch and the count fits in a `u64`.
pub open spec fn unix_micros(s: SysTime) -> Option<u64> {
    let n = nanos_since_epoch(s);
    if n < 0 || n / 1_000 > u64::MAX {
        None
    } else {
        Some((n / 1_000) as u64)
    }
}

impl SysTime {
    /// The Unix epoch itself.
    pub open spec fn spec_epoch() -> SysTime {
        SysTime { secs: 0, nanos: 0 }
    }

    pub fn unix_epoch() -> (r: SysTime)
        ensures
            r == SysTime::spec_epoch(),
    {
        SysTime { secs: 0, nanos: 0 }
    }
}

/// The span from the Unix epoch to `s`, or `None` when `s` lies before it.
pub fn stime2unixtime(s: SysTime) -> (r: Option<Duration>)
    ensures
        r.is_some() <==> nanos_since_epoch(s) >= 0,
        r matches Some(d) ==> d.nanos < NANOS_PER_SEC && d.secs * 1_000_000_000 + d.nanos
            == nanos_since_epoch(s),
{
    let total: i128 = s.secs as i128 * 1_000_000_000 + s.nanos as i128;
    if total < 0 {
        None
    } else {
        let secs: i128 = total / 1_000_000_000;
        let nanos: i128 = total % 1_000_000_000;
        assert(secs <= u64::MAX) by (nonlinear_arith)
            requires
                secs == total / 1_000_000_000,
                0 <= total <= i64::MAX * 1_000_000_000 + u32::MAX,
        ;
        Some(Duration { secs: secs as u64, nanos: nanos as u32 })
    }
}

/// The whole microseconds in `d`, or `None` when they do not fit in a `u64`.
pub fn duration2us(d: Duration) -> (r: Option<u64>)
    ensures
        r.is_some() <==> duration_micros(d) <= u64::MAX,
        r matches Some(us) ==> us == duration_micros(d),
{
    let whole: u128 = d.secs as u128;
    assert(whole * 1_000_000 <= u64::MAX * 1_000_000) by (nonlinear_arith)
        requires
            whole <= u64::MAX,
    ;
    let micros: u128 = whole * MICROS_PER_SEC as u128 + (d.nanos / NANOS_PER_MICRO) as u128;
    if micros <= u64::MAX as u128 {
        Some(micros as u64)
    } else {
        None
    }
}

proof fn lemma_micros_of_split(secs: int, nanos: int)
    requires
        secs >= 0,
        0 <= nanos < 1_000_000_000,
    ensures
        (secs * 1_000_000_000 + nanos) / 1_000 == secs * 1_000_000 + nanos / 1_000,
{
    assert((secs * 1_000_000_000 + nanos) / 1_000 == secs * 1_000_000 + nanos / 1_000)
        by (nonlinear_arith)
        requires
            secs >= 0,
            0 <= nanos < 1_000_000_000,
    ;
}

/// The whole microseconds from the Unix epoch to `s`, or `None` when `s` lies
/// before the epoch or the count does not fit in a `u64`.
pub fn stime2unixtime_us(s: SysTime) -> (r: Option<u64>)
    ensures
        r == unix_micros(s),
{
    match stime2unixtime(s) {
        None => None,
        Some(d) => {
            proof {
                lemma_micros_of_split(d.secs as int, d.nanos as int);
            }
            duration2us(d)
        },
    }
}

} // verus!
