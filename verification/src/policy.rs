//! Scheduling policies and behaviour flags.
//!
//! `Policy` is the closed enumeration of Linux scheduler classes, with a
//! total bidirectional mapping to the fixed kernel policy codes. Decoding an
//! unrecognized code is an error: an unknown scheduler class cannot be
//! safely acted on. `SchedFlags` is the independent flag set transmitted in
//! the attribute record; unknown bits are truncated on decode, not errored.

use crate::error::SysError;
use vstd::prelude::*;

verus! {

pub const SCHED_NORMAL: u32 = 0;
pub const SCHED_FIFO: u32 = 1;
pub const SCHED_RR: u32 = 2;
pub const SCHED_BATCH: u32 = 3;
// Policy code 4 (formerly SCHED_ISO) was retired and must never be reused.
pub const SCHED_IDLE: u32 = 5;
pub const SCHED_DEADLINE: u32 = 6;
pub const SCHED_EXT: u32 = 7;

/// The scheduling policies Linux currently supports.
#[derive(Clone, Copy, Debug, PartialEq, Eq, Structural)]
pub enum Policy {
    /// The standard round-robin time-sharing policy.
    Normal,
    /// For "batch" style execution of processes.
    Batch,
    /// For running very low priority background jobs.
    Idle,
    /// Real-time: first-in, first-out.
    Fifo,
    /// Real-time: round-robin.
    RoundRobin,
    /// Real-time: deadline scheduling.
    Deadline,
    /// The extensible (BPF-defined) scheduler class.
    Ext,
}

/// The fixed kernel code of each policy.
pub open spec fn spec_policy_raw(p: Policy) -> u32 {
    match p {
        Policy::Normal => SCHED_NORMAL,
        Policy::Fifo => SCHED_FIFO,
        Policy::RoundRobin => SCHED_RR,
        Policy::Batch => SCHED_BATCH,
        Policy::Idle => SCHED_IDLE,
        Policy::Deadline => SCHED_DEADLINE,
        Policy::Ext => SCHED_EXT,
    }
}

/// Whether a raw code names a policy this crate knows.
pub open spec fn spec_policy_known(raw: u32) -> bool {
    raw == SCHED_NORMAL || raw == SCHED_FIFO || raw == SCHED_RR || raw == SCHED_BATCH || raw
        == SCHED_IDLE || raw == SCHED_DEADLINE || raw == SCHED_EXT
}

/// The policy a known raw code names.
pub open spec fn spec_policy_of_raw(raw: u32) -> Policy
    recommends
        spec_policy_known(raw),
{
    if raw == SCHED_FIFO {
        Policy::Fifo
    } else if raw == SCHED_RR {
        Policy::RoundRobin
    } else if raw == SCHED_BATCH {
        Policy::Batch
    } else if raw == SCHED_IDLE {
        Policy::Idle
    } else if raw == SCHED_DEADLINE {
        Policy::Deadline
    } else if raw == SCHED_EXT {
        Policy::Ext
    } else {
        Policy::Normal
    }
}

impl Policy {
    /// The kernel code of this policy, consuming the value.
    pub fn into_raw(self) -> (r: u32)
        ensures
            r == spec_policy_raw(self),
    {
        self.as_raw()
    }

    /// The kernel code of this policy.
    pub fn as_raw(&self) -> (r: u32)
        ensures
            r == spec_policy_raw(*self),
    {
        match self {
            Policy::Batch => SCHED_BATCH,
            Policy::Deadline => SCHED_DEADLINE,
            Policy::Fifo => SCHED_FIFO,
            Policy::Idle => SCHED_IDLE,
            Policy::Normal => SCHED_NORMAL,
            Policy::RoundRobin => SCHED_RR,
            Policy::Ext => SCHED_EXT,
        }
    }

    /// Decodes a kernel policy code; exactly the seven known codes decode,
    /// and every unknown code is reported, never coerced to a default.
    pub fn from_raw(raw: u32) -> (r: Result<Policy, SysError>)
        ensures
            r is Ok <==> spec_policy_known(raw),
            r is Ok ==> r->Ok_0 == spec_policy_of_raw(raw) && spec_policy_raw(r->Ok_0) == raw,
            r is Err ==> r->Err_0 == SysError::UnknownPolicy(raw),
    {
        match raw {
            SCHED_NORMAL => Ok(Policy::Normal),
            SCHED_FIFO => Ok(Policy::Fifo),
            SCHED_RR => Ok(Policy::RoundRobin),
            SCHED_BATCH => Ok(Policy::Batch),
            SCHED_IDLE => Ok(Policy::Idle),
            SCHED_DEADLINE => Ok(Policy::Deadline),
            SCHED_EXT => Ok(Policy::Ext),
            _ => Err(SysError::UnknownPolicy(raw)),
        }
    }
}

/// Law: encoding a policy and decoding the code returns the same policy, for
/// every policy.
pub proof fn lemma_policy_round_trip(p: Policy)
    ensures
        spec_policy_known(spec_policy_raw(p)),
        spec_policy_of_raw(spec_policy_raw(p)) == p,
{
}

/// Children created by fork do not inherit privileged scheduling policies.
pub const SCHED_FLAG_RESET_ON_FORK: u64 = 0x01;

/// Lets a deadline thread reclaim bandwidth unused by other real-time
/// threads.
pub const SCHED_FLAG_RECLAIM: u64 = 0x02;

/// Delivers a SIGXCPU signal on each run-time overrun of a deadline thread.
pub const SCHED_FLAG_DL_OVERRUN: u64 = 0x04;

/// Keeps the current policy parameters when changing only the flags.
pub const SCHED_FLAG_KEEP_PARAMS: u64 = 0x10;

/// Marks the minimum-utilization clamp field as present.
pub const SCHED_FLAG_UTIL_CLAMP_MIN: u64 = 0x20;

/// Marks the maximum-utilization clamp field as present.
pub const SCHED_FLAG_UTIL_CLAMP_MAX: u64 = 0x40;

/// Every flag bit this crate knows.
pub const SCHED_FLAG_ALL: u64 = 0x77;

/// The set of scheduling-behaviour flags carried in the attribute record,
/// backed by the fixed-width integer the kernel transmits.
#[derive(Clone, Copy, Debug, PartialEq, Eq, Structural)]
pub struct SchedFlags {
    bits: u64,
}

impl SchedFlags {
    /// The raw bit pattern of the set.
    pub closed spec fn spec_bits(self) -> u64 {
        self.bits
    }

    /// The flag set a raw pattern decodes to: its known bits.
    pub closed spec fn spec_from_bits(raw: u64) -> SchedFlags {
        SchedFlags { bits: raw & SCHED_FLAG_ALL }
    }

    /// A flag set holds known bits only.
    pub open spec fn wf(self) -> bool {
        self.spec_bits() & SCHED_FLAG_ALL == self.spec_bits()
    }

    /// The flag set with no flag raised.
    pub fn empty() -> (r: Self)
        ensures
            r == Self::spec_from_bits(0),
            r.spec_bits() == 0,
            r.wf(),
    {
        let r = SchedFlags { bits: 0 };
        proof {
            assert(0u64 & SCHED_FLAG_ALL == 0u64) by (bit_vector);
        }
        r
    }

    /// Builds a flag set from a raw bit pattern; unknown bits are truncated
    /// away, not errored.
    pub fn from_bits_truncate(raw: u64) -> (r: Self)
        ensures
            r == Self::spec_from_bits(raw),
            r.spec_bits() == raw & SCHED_FLAG_ALL,
            r.wf(),
    {
        let r = SchedFlags { bits: raw & SCHED_FLAG_ALL };
        proof {
            assert((raw & 0x77u64) & 0x77u64 == raw & 0x77u64) by (bit_vector);
        }
        r
    }

    /// The raw bit pattern, as transmitted in the attribute record.
    pub fn bits(&self) -> (r: u64)
        ensures
            r == self.spec_bits(),
    {
        self.bits
    }

    /// Whether every bit of `flag` is raised in the set.
    pub fn contains(&self, flag: u64) -> (r: bool)
        ensures
            r == (self.spec_bits() & flag == flag),
    {
        self.bits & flag == flag
    }

    /// Raises the known bits of `flag`, keeping every other bit as it was.
    pub fn insert(self, flag: u64) -> (r: Self)
        ensures
            r.spec_bits() == self.spec_bits() | (flag & SCHED_FLAG_ALL),
            self.wf() ==> r.wf(),
    {
        let r = SchedFlags { bits: self.bits | (flag & SCHED_FLAG_ALL) };
        proof {
            let b = self.bits;
            let f = flag;
            assert(b & 0x77u64 == b ==> (b | (f & 0x77u64)) & 0x77u64 == (b | (f & 0x77u64)))
                by (bit_vector);
        }
        r
    }
}

/// Law: decoding the transmitted pattern of a well-formed flag set returns
/// that set, so encode then decode is the identity on flag sets.
pub proof fn lemma_flags_round_trip(f: SchedFlags)
    requires
        f.wf(),
    ensures
        SchedFlags::spec_from_bits(f.spec_bits()) == f,
{
}


} // verus!
