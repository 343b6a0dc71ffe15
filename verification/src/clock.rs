//! Clock sources and the clock operations.
//!
//! `ClockId` is the closed enumeration of kernel clock sources, with a total
//! bidirectional mapping to the fixed kernel clock identifiers. Unknown raw
//! identifiers decode to "no match" rather than an error, since probing for
//! an absent clock is an expected, non-exceptional case. The get/set/sleep
//! operations hand a `TimeSpec` across the syscall boundary unchanged.

use crate::error::SysError;
use crate::timespec::TimeSpec;
use vstd::prelude::*;

verus! {

pub const CLOCK_REALTIME: i32 = 0;
pub const CLOCK_MONOTONIC: i32 = 1;
pub const CLOCK_PROCESS_CPUTIME_ID: i32 = 2;
pub const CLOCK_THREAD_CPUTIME_ID: i32 = 3;
pub const CLOCK_MONOTONIC_RAW: i32 = 4;
pub const CLOCK_REALTIME_COARSE: i32 = 5;
pub const CLOCK_MONOTONIC_COARSE: i32 = 6;
pub const CLOCK_BOOTTIME: i32 = 7;
pub const CLOCK_REALTIME_ALARM: i32 = 8;
pub const CLOCK_BOOTTIME_ALARM: i32 = 9;
// Identifier 10 belonged to a clock whose driver was removed; it is kept
// retired and must never be reused.
pub const CLOCK_TAI: i32 = 11;

/// The kernel clock sources this crate knows.
#[derive(Clone, Copy, Debug, PartialEq, Eq, Structural)]
pub enum ClockId {
    /// The settable system-wide wall-clock time; subject to discontinuous
    /// jumps and incremental adjustment. Setting it requires privilege.
    ClockRealtime,
    /// Like the realtime clock, but wakes a suspended system for timers; not
    /// settable.
    ClockRealtimeAlarm,
    /// A faster but less precise realtime clock; not settable.
    ClockRealtimeCoarse,
    /// Wall-clock time ignoring leap seconds (International Atomic Time);
    /// free of leap-second discontinuities.
    ClockTai,
    /// Monotonic time since an unspecified point (boot); never jumps
    /// backwards, does not count suspended time.
    ClockMonotonic,
    /// A faster but less precise monotonic clock.
    ClockMonotonicCoarse,
    /// Raw hardware monotonic time, free of adjustment.
    ClockMonotonicRaw,
    /// Monotonic time that also counts time the system is suspended.
    ClockBoottime,
    /// Like the boot clock, but wakes a suspended system for timers.
    ClockBoottimeAlarm,
    /// CPU time consumed by the calling process; not settable.
    ClockProcessCputimeId,
    /// CPU time consumed by the calling thread; not settable.
    ClockThreadCputimeId,
}

/// The fixed kernel identifier of each clock source.
pub open spec fn spec_clock_raw(c: ClockId) -> i32 {
    match c {
        ClockId::ClockRealtime => CLOCK_REALTIME,
        ClockId::ClockRealtimeAlarm => CLOCK_REALTIME_ALARM,
        ClockId::ClockRealtimeCoarse => CLOCK_REALTIME_COARSE,
        ClockId::ClockTai => CLOCK_TAI,
        ClockId::ClockMonotonic => CLOCK_MONOTONIC,
        ClockId::ClockMonotonicCoarse => CLOCK_MONOTONIC_COARSE,
        ClockId::ClockMonotonicRaw => CLOCK_MONOTONIC_RAW,
        ClockId::ClockBoottime => CLOCK_BOOTTIME,
        ClockId::ClockBoottimeAlarm => CLOCK_BOOTTIME_ALARM,
        ClockId::ClockProcessCputimeId => CLOCK_PROCESS_CPUTIME_ID,
        ClockId::ClockThreadCputimeId => CLOCK_THREAD_CPUTIME_ID,
    }
}

/// Whether a raw identifier names a clock source this crate knows.
pub open spec fn spec_clock_known(raw: i32) -> bool {
    0 <= raw <= 9 || raw == CLOCK_TAI
}

/// The clock source a known raw identifier names.
pub open spec fn spec_clock_of_raw(raw: i32) -> ClockId
    recommends
        spec_clock_known(raw),
{
    if raw == CLOCK_MONOTONIC {
        ClockId::ClockMonotonic
    } else if raw == CLOCK_PROCESS_CPUTIME_ID {
        ClockId::ClockProcessCputimeId
    } else if raw == CLOCK_THREAD_CPUTIME_ID {
        ClockId::ClockThreadCputimeId
    } else if raw == CLOCK_MONOTONIC_RAW {
        ClockId::ClockMonotonicRaw
    } else if raw == CLOCK_REALTIME_COARSE {
        ClockId::ClockRealtimeCoarse
    } else if raw == CLOCK_MONOTONIC_COARSE {
        ClockId::ClockMonotonicCoarse
    } else if raw == CLOCK_BOOTTIME {
        ClockId::ClockBoottime
    } else if raw == CLOCK_REALTIME_ALARM {
        ClockId::ClockRealtimeAlarm
    } else if raw == CLOCK_BOOTTIME_ALARM {
        ClockId::ClockBoottimeAlarm
    } else if raw == CLOCK_TAI {
        ClockId::ClockTai
    } else {
        ClockId::ClockRealtime
    }
}

impl ClockId {
    /// The kernel identifier of this clock source.
    pub fn as_raw(&self) -> (r: i32)
        ensures
            r == spec_clock_raw(*self),
    {
        match self {
            ClockId::ClockRealtime => CLOCK_REALTIME,
            ClockId::ClockRealtimeAlarm => CLOCK_REALTIME_ALARM,
            ClockId::ClockRealtimeCoarse => CLOCK_REALTIME_COARSE,
            ClockId::ClockTai => CLOCK_TAI,
            ClockId::ClockMonotonic => CLOCK_MONOTONIC,
            ClockId::ClockMonotonicCoarse => CLOCK_MONOTONIC_COARSE,
            ClockId::ClockMonotonicRaw => CLOCK_MONOTONIC_RAW,
            ClockId::ClockBoottime => CLOCK_BOOTTIME,
            ClockId::ClockBoottimeAlarm => CLOCK_BOOTTIME_ALARM,
            ClockId::ClockProcessCputimeId => CLOCK_PROCESS_CPUTIME_ID,
            ClockId::ClockThreadCputimeId => CLOCK_THREAD_CPUTIME_ID,
        }
    }

    /// Decodes a raw kernel clock identifier; exactly the known identifiers
    /// decode, and an unknown one is "no match", not an error.
    pub fn from_raw(clockid: i32) -> (r: Option<ClockId>)
        ensures
            r is Some <==> spec_clock_known(clockid),
            r is Some ==> r->0 == spec_clock_of_raw(clockid) && spec_clock_raw(r->0) == clockid,
    {
        match clockid {
            CLOCK_REALTIME => Some(ClockId::ClockRealtime),
            CLOCK_REALTIME_ALARM => Some(ClockId::ClockRealtimeAlarm),
            CLOCK_REALTIME_COARSE => Some(ClockId::ClockRealtimeCoarse),
            CLOCK_TAI => Some(ClockId::ClockTai),
            CLOCK_MONOTONIC => Some(ClockId::ClockMonotonic),
            CLOCK_MONOTONIC_COARSE => Some(ClockId::ClockMonotonicCoarse),
            CLOCK_MONOTONIC_RAW => Some(ClockId::ClockMonotonicRaw),
            CLOCK_BOOTTIME => Some(ClockId::ClockBoottime),
            CLOCK_BOOTTIME_ALARM => Some(ClockId::ClockBoottimeAlarm),
            CLOCK_PROCESS_CPUTIME_ID => Some(ClockId::ClockProcessCputimeId),
            CLOCK_THREAD_CPUTIME_ID => Some(ClockId::ClockThreadCputimeId),
            _ => None,
        }
    }
}

/// Law: encoding a clock source and decoding the identifier returns the same
/// source, for every source.
pub proof fn lemma_clock_round_trip(c: ClockId)
    ensures
        spec_clock_known(spec_clock_raw(c)),
        spec_clock_of_raw(spec_clock_raw(c)) == c,
{
}

/// Relies on nix::time::clock_gettime: reads the named kernel clock and
/// returns its (seconds, nanoseconds) pair, or the raw kernel error code.
#[verifier::external_body]
fn sys_clock_gettime(clockid: i32) -> (r: Result<(i64, i64), i32>) {
    match nix::time::clock_gettime(nix::time::ClockId::from_raw(clockid)) {
        Ok(ts) => Ok((ts.tv_sec(), ts.tv_nsec())),
        Err(e) => Err(e as i32),
    }
}

/// Relies on nix::time::clock_settime: writes the (seconds, nanoseconds)
/// pair to the named kernel clock, or returns the raw kernel error code.
#[verifier::external_body]
fn sys_clock_settime(clockid: i32, sec: i64, nsec: i64) -> (r: Result<(), i32>) {
    match nix::time::clock_settime(
        nix::time::ClockId::from_raw(clockid),
        nix::sys::time::TimeSpec::new(sec, nsec),
    ) {
        Ok(()) => Ok(()),
        Err(e) => Err(e as i32),
    }
}

/// Relies on nix::time::clock_nanosleep without the absolute-time flag:
/// blocks for the given duration measured on the named clock, or returns
/// the raw kernel error code (interruption included).
#[verifier::external_body]
fn sys_clock_nanosleep_relative(clockid: i32, sec: i64, nsec: i64) -> (r: Result<(), i32>) {
    let request = nix::sys::time::TimeSpec::new(sec, nsec);
    match nix::time::clock_nanosleep(
        nix::time::ClockId::from_raw(clockid),
        nix::time::ClockNanosleepFlags::empty(),
        &request,
    ) {
        Ok(_remaining) => Ok(()),
        Err(e) => Err(e as i32),
    }
}

/// Relies on nix::time::clock_nanosleep with the absolute-time flag: blocks
/// until the named clock reaches the given point (returning at once for a
/// point already past), or returns the raw kernel error code.
#[verifier::external_body]
fn sys_clock_nanosleep_absolute(clockid: i32, sec: i64, nsec: i64) -> (r: Result<(), i32>) {
    let request = nix::sys::time::TimeSpec::new(sec, nsec);
    match nix::time::clock_nanosleep(
        nix::time::ClockId::from_raw(clockid),
        nix::time::ClockNanosleepFlags::TIMER_ABSTIME,
        &request,
    ) {
        Ok(_remaining) => Ok(()),
        Err(e) => Err(e as i32),
    }
}

/// Reads the current time of the given clock source. Fails with the
/// kernel's own error if the source is unsupported on the running kernel or
/// the caller lacks permission for it.
pub fn get_time(clockid: ClockId) -> (r: Result<TimeSpec, SysError>)
    ensures
        r is Err ==> r->Err_0 is Os,
{
    match sys_clock_gettime(clockid.as_raw()) {
        Ok((sec, nsec)) => Ok(TimeSpec { tv_sec: sec, tv_nsec: nsec }),
        Err(code) => Err(SysError::Os(code)),
    }
}

/// Sets the given clock source to `tp`. No settability is pre-validated
/// client-side: the kernel rejects a non-settable clock or an unprivileged
/// caller, and that error is returned unmodified.
pub fn set_time(clockid: ClockId, tp: TimeSpec) -> (r: Result<(), SysError>)
    ensures
        r is Err ==> r->Err_0 is Os,
{
    match sys_clock_settime(clockid.as_raw(), tp.tv_sec, tp.tv_nsec) {
        Ok(()) => Ok(()),
        Err(code) => Err(SysError::Os(code)),
    }
}

/// Blocks for the duration `tp` measured on the given clock. On early wake
/// by a signal the kernel's interrupted error is returned; a caller that
/// needs the full duration must loop until success.
pub fn nanosleep_relative(clockid: ClockId, tp: TimeSpec) -> (r: Result<(), SysError>)
    ensures
        r is Err ==> r->Err_0 is Os,
{
    match sys_clock_nanosleep_relative(clockid.as_raw(), tp.tv_sec, tp.tv_nsec) {
        Ok(()) => Ok(()),
        Err(code) => Err(SysError::Os(code)),
    }
}

/// Blocks until the given clock reaches the point in time `tp`; a point
/// already past returns immediately without error. Interruption by a signal
/// is reported like in `nanosleep_relative`.
pub fn nanosleep_absolute(clockid: ClockId, tp: TimeSpec) -> (r: Result<(), SysError>)
    ensures
        r is Err ==> r->Err_0 is Os,
{
    match sys_clock_nanosleep_absolute(clockid.as_raw(), tp.tv_sec, tp.tv_nsec) {
        Ok(()) => Ok(()),
        Err(code) => Err(SysError::Os(code)),
    }
}

} // verus!
