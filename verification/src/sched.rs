//! Scheduler attributes and the codec for the kernel attribute record.
//!
//! A thread's scheduling state is the pair (policy, attributes); it changes
//! only through an explicit attribute write. `Attributes` is the typed,
//! validated aggregate; `SchedAttr` is the fixed-size kernel record it is
//! encoded to and decoded from, bit-for-bit compatible with the Linux ABI.
//! The only client-side validation is the deadline-parameter check of the
//! `deadline` constructor; every other value is passed to the kernel, which
//! is authoritative.

use crate::error::SysError;
use crate::policy::{
    lemma_flags_round_trip, lemma_policy_round_trip, spec_policy_known, spec_policy_of_raw,
    spec_policy_raw, Policy, SchedFlags,
};
use vstd::prelude::*;

verus! {

/// The compiled size in bytes of the kernel attribute record below; the
/// writer must populate the record's `size` field with it before every
/// write.
pub const SCHED_ATTR_SIZE: u32 = 56;

/// The minimum granularity in nanoseconds the kernel accepts for each
/// deadline-scheduling parameter.
pub const DEADLINE_MIN_NS: u64 = 1024;

/// The fixed-size scheduler attribute record, field order and widths exactly
/// as the kernel lays them out.
#[derive(Clone, Copy, Debug, PartialEq, Eq, Structural)]
pub struct SchedAttr {
    /// Size of this structure.
    pub size: u32,
    /// Policy code.
    pub sched_policy: u32,
    /// Behaviour flag bits.
    pub sched_flags: u64,
    /// Nice value (time-sharing policies).
    pub sched_nice: i32,
    /// Static priority (first-in-first-out and round-robin policies).
    pub sched_priority: u32,
    /// Runtime parameter for deadline scheduling, in nanoseconds.
    pub sched_runtime: u64,
    /// Deadline parameter for deadline scheduling, in nanoseconds.
    pub sched_deadline: u64,
    /// Period parameter for deadline scheduling, in nanoseconds.
    pub sched_period: u64,
    /// Minimum-utilization hint, in `[0, 1024]`, flag-gated.
    pub sched_util_min: u32,
    /// Maximum-utilization hint, in `[0, 1024]`, flag-gated.
    pub sched_util_max: u32,
}

/// The scheduling policy and attributes of a thread.
///
/// Fields outside the chosen policy's domain are accepted uncomplained and
/// handed to the kernel, which is authoritative; only the `deadline`
/// constructor validates client-side.
#[derive(Clone, Copy, Debug, PartialEq, Eq, Structural)]
pub struct Attributes {
    /// The scheduling policy.
    pub policy: Policy,
    /// Behaviour flags.
    pub flags: SchedFlags,
    /// The nice value, in `[-20, 19]`, used by the normal and batch
    /// policies.
    pub nice: i32,
    /// The static priority, used by the first-in-first-out and round-robin
    /// policies; zero for every other policy.
    pub priority: u32,
    /// Runtime parameter for the deadline policy, in nanoseconds.
    pub runtime_ns: u64,
    /// Deadline parameter for the deadline policy, in nanoseconds.
    pub deadline_ns: u64,
    /// Period parameter for the deadline policy, in nanoseconds.
    pub period_ns: u64,
    /// Minimum-utilization hint, present only under its gating flag.
    pub sched_util_min: u32,
    /// Maximum-utilization hint, present only under its gating flag.
    pub sched_util_max: u32,
}

/// The kernel record an attribute value encodes to.
pub open spec fn spec_encode(a: Attributes) -> SchedAttr {
    SchedAttr {
        size: SCHED_ATTR_SIZE,
        sched_policy: spec_policy_raw(a.policy),
        sched_flags: a.flags.spec_bits(),
        sched_nice: a.nice,
        sched_priority: a.priority,
        sched_runtime: a.runtime_ns,
        sched_deadline: a.deadline_ns,
        sched_period: a.period_ns,
        sched_util_min: a.sched_util_min,
        sched_util_max: a.sched_util_max,
    }
}

/// The attribute value a kernel record with a known policy code decodes to;
/// unknown flag bits are truncated away.
pub open spec fn spec_decode(rec: SchedAttr) -> Attributes
    recommends
        spec_policy_known(rec.sched_policy),
{
    Attributes {
        policy: spec_policy_of_raw(rec.sched_policy),
        flags: SchedFlags::spec_from_bits(rec.sched_flags),
        nice: rec.sched_nice,
        priority: rec.sched_priority,
        runtime_ns: rec.sched_runtime,
        deadline_ns: rec.sched_deadline,
        period_ns: rec.sched_period,
        sched_util_min: rec.sched_util_min,
        sched_util_max: rec.sched_util_max,
    }
}

/// The deadline-parameter precondition the kernel enforces and the
/// `deadline` constructor checks client-side: ordering
/// `runtime <= deadline <= period` and the minimum granularity on all
/// three.
pub open spec fn spec_deadline_valid(deadline_ns: u64, period_ns: u64, runtime_ns: u64) -> bool {
    &&& runtime_ns <= deadline_ns <= period_ns
    &&& runtime_ns >= DEADLINE_MIN_NS
    &&& deadline_ns >= DEADLINE_MIN_NS
    &&& period_ns >= DEADLINE_MIN_NS
}

impl Attributes {
    /// Encodes the attributes into the kernel record, populating the size
    /// field with the record's compiled size.
    pub fn encode(&self) -> (r: SchedAttr)
        ensures
            r == spec_encode(*self),
    {
        SchedAttr {
            size: SCHED_ATTR_SIZE,
            sched_policy: self.policy.as_raw(),
            sched_flags: self.flags.bits(),
            sched_nice: self.nice,
            sched_priority: self.priority,
            sched_runtime: self.runtime_ns,
            sched_deadline: self.deadline_ns,
            sched_period: self.period_ns,
            sched_util_min: self.sched_util_min,
            sched_util_max: self.sched_util_max,
        }
    }

    /// Decodes a kernel record. Fails on a policy code this crate does not
    /// recognize — never coerced to a default policy; unrecognized flag bits
    /// are dropped, not errored.
    pub fn decode(rec: &SchedAttr) -> (r: Result<Attributes, SysError>)
        ensures
            r is Ok <==> spec_policy_known(rec.sched_policy),
            r is Ok ==> r->Ok_0 == spec_decode(*rec),
            r is Err ==> r->Err_0 == SysError::UnknownPolicy(rec.sched_policy),
    {
        let policy = match Policy::from_raw(rec.sched_policy) {
            Ok(p) => p,
            Err(e) => {
                return Err(e);
            },
        };
        Ok(
            Attributes {
                policy,
                flags: SchedFlags::from_bits_truncate(rec.sched_flags),
                nice: rec.sched_nice,
                priority: rec.sched_priority,
                runtime_ns: rec.sched_runtime,
                deadline_ns: rec.sched_deadline,
                period_ns: rec.sched_period,
                sched_util_min: rec.sched_util_min,
                sched_util_max: rec.sched_util_max,
            },
        )
    }

    /// Attributes selecting the standard time-sharing policy with the given
    /// nice value; every other field is zero.
    pub fn normal(nice: i32) -> (r: Attributes)
        ensures
            r == Self::spec_plain(Policy::Normal, nice, 0u32),
    {
        Self::plain(Policy::Normal, nice, 0)
    }

    /// Attributes selecting the batch policy with the given nice value.
    pub fn batch(nice: i32) -> (r: Attributes)
        ensures
            r == Self::spec_plain(Policy::Batch, nice, 0u32),
    {
        Self::plain(Policy::Batch, nice, 0)
    }

    /// Attributes selecting the idle policy; nice and priority play no role
    /// there and are zero.
    pub fn idle() -> (r: Attributes)
        ensures
            r == Self::spec_plain(Policy::Idle, 0i32, 0u32),
    {
        Self::plain(Policy::Idle, 0, 0)
    }

    /// Attributes selecting the first-in-first-out real-time policy with the
    /// given static priority.
    pub fn fifo(priority: u32) -> (r: Attributes)
        ensures
            r == Self::spec_plain(Policy::Fifo, 0i32, priority),
    {
        Self::plain(Policy::Fifo, 0, priority)
    }

    /// Attributes selecting the round-robin real-time policy with the given
    /// static priority.
    pub fn round_robin(priority: u32) -> (r: Attributes)
        ensures
            r == Self::spec_plain(Policy::RoundRobin, 0i32, priority),
    {
        Self::plain(Policy::RoundRobin, 0, priority)
    }

    /// Attributes selecting the deadline policy. This is the one place the
    /// crate validates client-side: it fails, without any syscall, unless
    /// `runtime <= deadline <= period` and all three are at least 1024
    /// nanoseconds, mirroring the kernel's own ordering and
    /// minimum-granularity requirements.
    pub fn deadline(deadline_ns: u64, period_ns: u64, runtime_ns: u64) -> (r: Result<
        Attributes,
        SysError,
    >)
        ensures
            r is Ok <==> spec_deadline_valid(deadline_ns, period_ns, runtime_ns),
            r is Ok ==> r->Ok_0 == Self::spec_deadline_attrs(deadline_ns, period_ns, runtime_ns),
            r is Err ==> r->Err_0 == SysError::InvalidDeadline,
    {
        if !(runtime_ns <= deadline_ns && deadline_ns <= period_ns) {
            return Err(SysError::InvalidDeadline);
        }
        if runtime_ns < DEADLINE_MIN_NS || deadline_ns < DEADLINE_MIN_NS || period_ns
            < DEADLINE_MIN_NS {
            return Err(SysError::InvalidDeadline);
        }
        Ok(
            Attributes {
                policy: Policy::Deadline,
                flags: SchedFlags::empty(),
                nice: 0,
                priority: 0,
                runtime_ns,
                deadline_ns,
                period_ns,
                sched_util_min: 0,
                sched_util_max: 0,
            },
        )
    }

    /// The attribute value of a non-deadline convenience constructor: the
    /// given policy, nice and priority, everything else zero.
    pub open spec fn spec_plain(policy: Policy, nice: i32, priority: u32) -> Attributes {
        Attributes {
            policy,
            flags: SchedFlags::spec_from_bits(0),
            nice,
            priority,
            runtime_ns: 0,
            deadline_ns: 0,
            period_ns: 0,
            sched_util_min: 0,
            sched_util_max: 0,
        }
    }

    /// The attribute value of a successful `deadline` construction.
    pub open spec fn spec_deadline_attrs(deadline_ns: u64, period_ns: u64, runtime_ns: u64) -> Attributes {
        Attributes {
            policy: Policy::Deadline,
            flags: SchedFlags::spec_from_bits(0),
            nice: 0,
            priority: 0,
            runtime_ns,
            deadline_ns,
            period_ns,
            sched_util_min: 0,
            sched_util_max: 0,
        }
    }

    fn plain(policy: Policy, nice: i32, priority: u32) -> (r: Attributes)
        ensures
            r == Self::spec_plain(policy, nice, priority),
    {
        Attributes {
            policy,
            flags: SchedFlags::empty(),
            nice,
            priority,
            runtime_ns: 0,
            deadline_ns: 0,
            period_ns: 0,
            sched_util_min: 0,
            sched_util_max: 0,
        }
    }
}

/// Law: encoding attributes into the kernel record and decoding the record
/// back returns the same attributes, for every policy. The one proviso is
/// that the flag set holds known bits only, which every constructor of this
/// crate guarantees; the kernel ignores the rest anyway.
pub proof fn lemma_attributes_round_trip(a: Attributes)
    requires
        a.flags.wf(),
    ensures
        spec_policy_known(spec_encode(a).sched_policy),
        spec_decode(spec_encode(a)) == a,
{
    lemma_policy_round_trip(a.policy);
    lemma_flags_round_trip(a.flags);
}

/// A thread identifier for scheduler operations; the raw value zero is the
/// sentinel meaning "the calling thread".
#[derive(Clone, Copy, Debug, PartialEq, Eq, Structural)]
pub struct Pid(i32);

impl Pid {
    /// The raw kernel identifier.
    pub closed spec fn spec_raw(self) -> i32 {
        self.0
    }

    /// The raw kernel identifier.
    pub fn as_raw(&self) -> (r: i32)
        ensures
            r == self.spec_raw(),
    {
        self.0
    }

    /// The identifier standing for the calling thread.
    pub fn this() -> (r: Self)
        ensures
            r.spec_raw() == 0,
    {
        Pid(0)
    }
}

/// Relies on nix::sched::sched_yield: wraps the yield syscall, returning the
/// kernel's error code raw on failure.
#[verifier::external_body]
fn sys_sched_yield() -> (r: Result<(), i32>) {
    match nix::sched::sched_yield() {
        Ok(()) => Ok(()),
        Err(e) => Err(e as i32),
    }
}

/// Voluntarily relinquishes the remainder of the current scheduling
/// quantum. Any kernel failure is reported as the opaque OS error.
pub fn sched_yield() -> (r: Result<(), SysError>)
    ensures
        r is Err ==> r->Err_0 is Os,
{
    match sys_sched_yield() {
        Ok(()) => Ok(()),
        Err(code) => Err(SysError::Os(code)),
    }
}

} // verus!
