//! A fixed-capacity CPU affinity bit-set.
//!
//! `CpuSet` abstracts the kernel's per-thread affinity mask: bit `k` set
//! means the thread may run on core `k`. The capacity is fixed at 16 words
//! of 64 bits (1024 cores), which is the byte length the kernel expects
//! alongside the mask on every affinity call.

use crate::error::SysError;
use crate::sched::Pid;
use nix::sched::CpuSet as NixCpuSet;
use vstd::arithmetic::div_mod::lemma_fundamental_div_mod;
use vstd::prelude::*;

verus! {

broadcast use vstd::set::group_set_axioms;

/// Number of 64-bit words backing the mask.
pub const CPU_SET_WORDS: usize = 16;

/// Number of selectable cores: the capacity of the mask in bits.
pub const CPU_SET_BITS: usize = 1024;

/// A bit-set over core indices `0..CPU_SET_BITS`, raw-layout compatible
/// with the kernel's affinity mask (16 little-endian 64-bit words).
#[derive(Clone, Copy, Debug, PartialEq, Eq)]
pub struct CpuSet {
    bits: [u64; CPU_SET_WORDS],
}

impl CpuSet {
    /// Whether core `core` is a member of the set. Indices outside the
    /// capacity are never members.
    pub closed spec fn spec_is_set(self, core: int) -> bool {
        0 <= core < CPU_SET_BITS && ((self.bits[core / 64] >> ((core % 64) as u64)) & 1u64)
            == 1u64
    }

    /// The all-bits-clear mask: no core is a member.
    pub fn empty() -> (r: Self)
        ensures
            forall|k: int| !r.spec_is_set(k),
    {
        let r = CpuSet { bits: [0u64; CPU_SET_WORDS] };
        proof {
            assert forall|k: int| !r.spec_is_set(k) by {
                if 0 <= k < CPU_SET_BITS {
                    let b = (k % 64) as u64;
                    assert(((0u64 >> b) & 1u64) != 1u64) by (bit_vector);
                }
            }
        }
        r
    }

    /// The all-bits-set mask: every in-range core is a member.
    pub fn full() -> (r: Self)
        ensures
            forall|k: int| r.spec_is_set(k) <==> 0 <= k < CPU_SET_BITS,
    {
        let r = CpuSet { bits: [u64::MAX; CPU_SET_WORDS] };
        proof {
            assert forall|k: int| r.spec_is_set(k) <==> 0 <= k < CPU_SET_BITS by {
                if 0 <= k < CPU_SET_BITS {
                    let b = (k % 64) as u64;
                    assert(b < 64 ==> ((u64::MAX >> b) & 1u64) == 1u64) by (bit_vector);
                }
            }
        }
        r
    }

    /// Adds core `core` to the set, leaving every other membership
    /// untouched. The index must be below the capacity.
    pub fn set(self, core: usize) -> (r: Self)
        requires
            core < CPU_SET_BITS,
        ensures
            forall|k: int| r.spec_is_set(k) == (k == core as int || self.spec_is_set(k)),
    {
        let mut cs = self;
        let idx = core / 64;
        let bit = (core % 64) as u64;
        cs.bits[idx] = cs.bits[idx] | (1u64 << bit);
        proof {
            assert forall|k: int|
                cs.spec_is_set(k) == (k == core as int || self.spec_is_set(k)) by {
                if 0 <= k < CPU_SET_BITS {
                    lemma_set_or_bit(self.bits[core as int / 64], bit, (k % 64) as u64);
                    if k / 64 == core as int / 64 {
                        lemma_fundamental_div_mod(k, 64);
                        lemma_fundamental_div_mod(core as int, 64);
                    }
                }
            }
        }
        cs
    }

    /// Removes core `core` from the set, leaving every other membership
    /// untouched. The index must be below the capacity.
    pub fn clear(self, core: usize) -> (r: Self)
        requires
            core < CPU_SET_BITS,
        ensures
            forall|k: int| r.spec_is_set(k) == (k != core as int && self.spec_is_set(k)),
    {
        let mut cs = self;
        let idx = core / 64;
        let bit = (core % 64) as u64;
        cs.bits[idx] = cs.bits[idx] & !(1u64 << bit);
        proof {
            assert forall|k: int|
                cs.spec_is_set(k) == (k != core as int && self.spec_is_set(k)) by {
                if 0 <= k < CPU_SET_BITS {
                    lemma_clear_and_bit(self.bits[core as int / 64], bit, (k % 64) as u64);
                    if k / 64 == core as int / 64 {
                        lemma_fundamental_div_mod(k, 64);
                        lemma_fundamental_div_mod(core as int, 64);
                    }
                }
            }
        }
        cs
    }

    /// Tests whether core `core` is a member of the set. The index must be
    /// below the capacity.
    pub fn is_set(&self, core: usize) -> (r: bool)
        requires
            core < CPU_SET_BITS,
        ensures
            r == self.spec_is_set(core as int),
    {
        let idx = core / 64;
        let bit = (core % 64) as u64;
        (self.bits[idx] >> bit) & 1 == 1
    }

    /// The byte length of the mask, as handed to the kernel alongside it on
    /// every affinity call.
    pub fn size_of() -> (r: usize)
        ensures
            r == 128,
    {
        128
    }
}

/// Setting one bit of a word raises exactly that bit and keeps the rest.
proof fn lemma_set_or_bit(w: u64, b: u64, c: u64)
    requires
        b < 64,
        c < 64,
    ensures
        (((w | (1u64 << b)) >> c) & 1u64 == 1u64) <==> (c == b || ((w >> c) & 1u64 == 1u64)),
{
    assert((b < 64 && c < 64) ==> ((((w | (1u64 << b)) >> c) & 1u64 == 1u64) <==> (c == b || ((w
        >> c) & 1u64 == 1u64)))) by (bit_vector);
}

/// Clearing one bit of a word lowers exactly that bit and keeps the rest.
proof fn lemma_clear_and_bit(w: u64, b: u64, c: u64)
    requires
        b < 64,
        c < 64,
    ensures
        (((w & !(1u64 << b)) >> c) & 1u64 == 1u64) <==> (c != b && ((w >> c) & 1u64 == 1u64)),
{
    assert((b < 64 && c < 64) ==> ((((w & !(1u64 << b)) >> c) & 1u64 == 1u64) <==> (c != b && ((w
        >> c) & 1u64 == 1u64)))) by (bit_vector);
}

/// The kernel-layout affinity mask of the OS-binding layer, carried opaquely
/// through the syscall boundary.
#[verifier::external_type_specification]
#[verifier::external_body]
pub struct ExNixCpuSet(NixCpuSet);

/// The set of core indices a kernel-layout mask holds.
pub uninterp spec fn nix_cpu_set_cores(s: NixCpuSet) -> Set<int>;

/// Relies on nix::sched::CpuSet::new: a freshly zeroed kernel-layout mask
/// holds no core.
#[verifier::external_body]
fn nix_cpu_set_new() -> (r: NixCpuSet)
    ensures
        nix_cpu_set_cores(r) == Set::<int>::empty(),
{
    NixCpuSet::new()
}

/// Relies on nix::sched::CpuSet::set: adds exactly one core to the mask.
/// The call succeeds for every index below the 1024-core capacity, which the
/// caller must stay under; the success result it returns carries nothing.
#[verifier::external_body]
fn nix_cpu_set_with(s: NixCpuSet, field: usize) -> (r: NixCpuSet)
    requires
        field < 1024,
    ensures
        nix_cpu_set_cores(r) == nix_cpu_set_cores(s).insert(field as int),
{
    let mut cs = s;
    let _ = cs.set(field);
    cs
}

/// Relies on nix::sched::CpuSet::is_set: tests one core of the mask; an
/// index at or beyond the 1024-core capacity is rejected with an error.
#[verifier::external_body]
fn nix_cpu_set_is_set(s: &NixCpuSet, field: usize) -> (r: Result<bool, i32>)
    ensures
        field < 1024 ==> r is Ok && r->Ok_0 == nix_cpu_set_cores(*s).contains(field as int),
        field >= 1024 ==> r is Err,
{
    match s.is_set(field) {
        Ok(b) => Ok(b),
        Err(e) => Err(e as i32),
    }
}

/// Relies on nix::sched::sched_setaffinity: writes the affinity mask of the
/// identified thread (zero meaning the calling thread), passing the mask's
/// fixed byte length alongside it; the kernel's error comes back raw.
#[verifier::external_body]
fn sys_sched_setaffinity(pid: i32, cpuset: &NixCpuSet) -> (r: Result<(), i32>) {
    match nix::sched::sched_setaffinity(nix::unistd::Pid::from_raw(pid), cpuset) {
        Ok(()) => Ok(()),
        Err(e) => Err(e as i32),
    }
}

/// Relies on nix::sched::sched_getaffinity: reads the affinity mask of the
/// identified thread (zero meaning the calling thread); the kernel's error
/// comes back raw.
#[verifier::external_body]
fn sys_sched_getaffinity(pid: i32) -> (r: Result<NixCpuSet, i32>) {
    match nix::sched::sched_getaffinity(nix::unistd::Pid::from_raw(pid)) {
        Ok(cs) => Ok(cs),
        Err(e) => Err(e as i32),
    }
}

/// Builds the kernel-layout mask holding exactly the cores of `mask`.
fn to_kernel_mask(mask: &CpuSet) -> (r: NixCpuSet)
    ensures
        forall|k: int| nix_cpu_set_cores(r).contains(k) <==> mask.spec_is_set(k),
{
    let mut ncs = nix_cpu_set_new();
    let mut core: usize = 0;
    while core < CPU_SET_BITS
        invariant
            core <= CPU_SET_BITS,
            forall|k: int|
                #[trigger] nix_cpu_set_cores(ncs).contains(k) <==> (0 <= k < core
                    && mask.spec_is_set(k)),
        decreases CPU_SET_BITS - core,
    {
        if mask.is_set(core) {
            ncs = nix_cpu_set_with(ncs, core);
        }
        core = core + 1;
    }
    ncs
}

/// Reads the kernel-layout mask back into a `CpuSet`, core by core.
fn from_kernel_mask(ncs: &NixCpuSet) -> (r: CpuSet)
    ensures
        forall|k: int|
            r.spec_is_set(k) <==> (0 <= k < CPU_SET_BITS && nix_cpu_set_cores(*ncs).contains(k)),
{
    let mut mask = CpuSet::empty();
    let mut core: usize = 0;
    while core < CPU_SET_BITS
        invariant
            core <= CPU_SET_BITS,
            forall|k: int|
                mask.spec_is_set(k) <==> (0 <= k < core && nix_cpu_set_cores(*ncs).contains(k)),
        decreases CPU_SET_BITS - core,
    {
        match nix_cpu_set_is_set(ncs, core) {
            Ok(member) => {
                if member {
                    mask = mask.set(core);
                }
            },
            Err(_) => {},
        }
        core = core + 1;
    }
    mask
}

/// Writes the OS-level affinity of the identified thread to `set`. If the
/// thread is running on a core the new mask excludes, the kernel migrates
/// it; this layer does not. The kernel's error is returned unmodified.
pub fn set_affinity(pid: Pid, set: CpuSet) -> (r: Result<(), SysError>)
    ensures
        r is Err ==> r->Err_0 is Os,
{
    let ncs = to_kernel_mask(&set);
    match sys_sched_setaffinity(pid.as_raw(), &ncs) {
        Ok(()) => Ok(()),
        Err(code) => Err(SysError::Os(code)),
    }
}

/// Reads the OS-level affinity of the identified thread. The kernel's error
/// is returned unmodified.
pub fn get_affinity(pid: Pid) -> (r: Result<CpuSet, SysError>)
    ensures
        r is Err ==> r->Err_0 is Os,
{
    match sys_sched_getaffinity(pid.as_raw()) {
        Ok(ncs) => Ok(from_kernel_mask(&ncs)),
        Err(code) => Err(SysError::Os(code)),
    }
}

} // verus!
