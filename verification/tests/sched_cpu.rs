use sched_clock::cpuset::{get_affinity, set_affinity, CPU_SET_BITS};
use sched_clock::policy::{
    SCHED_BATCH, SCHED_DEADLINE, SCHED_EXT, SCHED_FIFO, SCHED_FLAG_ALL, SCHED_FLAG_DL_OVERRUN,
    SCHED_FLAG_RECLAIM, SCHED_FLAG_RESET_ON_FORK, SCHED_IDLE, SCHED_NORMAL, SCHED_RR,
};
use sched_clock::sched::{sched_yield, DEADLINE_MIN_NS, SCHED_ATTR_SIZE};
use sched_clock::Attributes;
use sched_clock::CpuSet;
use sched_clock::Pid;
use sched_clock::Policy;
use sched_clock::SchedAttr;
use sched_clock::SchedFlags;
use sched_clock::SysError;

#[test]
fn test_cpuset() {
    let test = CpuSet::full();
    for k in 0..CPU_SET_BITS {
        assert!(test.is_set(k));
    }

    let test = CpuSet::empty();
    for k in 0..CPU_SET_BITS {
        assert!(!test.is_set(k));
    }

    let test = CpuSet::empty().set(1);
    for k in 0..CPU_SET_BITS {
        assert_eq!(test.is_set(k), k == 1);
    }
}

#[test]
fn cpuset_clear_removes_one_bit() {
    let m = CpuSet::full().clear(5);
    for k in 0..CPU_SET_BITS {
        assert_eq!(m.is_set(k), k != 5);
    }
    let again = m.clear(5);
    assert_eq!(again, m);
    let back = m.set(5);
    assert_eq!(back, CpuSet::full());
}

#[test]
fn cpuset_set_is_idempotent_and_local() {
    let m = CpuSet::empty().set(0).set(63).set(64).set(1023);
    for k in 0..CPU_SET_BITS {
        assert_eq!(m.is_set(k), k == 0 || k == 63 || k == 64 || k == 1023);
    }
    assert_eq!(m.set(63), m);
    assert_eq!(CpuSet::size_of(), 128);
}

#[test]
fn policy_round_trip() {
    let all = [
        Policy::Normal,
        Policy::Batch,
        Policy::Idle,
        Policy::Fifo,
        Policy::RoundRobin,
        Policy::Deadline,
        Policy::Ext,
    ];
    for p in all {
        assert_eq!(Policy::from_raw(p.as_raw()), Ok(p));
        assert_eq!(p.into_raw(), p.as_raw());
    }
    assert_eq!(Policy::Normal.as_raw(), SCHED_NORMAL);
    assert_eq!(Policy::Fifo.as_raw(), SCHED_FIFO);
    assert_eq!(Policy::RoundRobin.as_raw(), SCHED_RR);
    assert_eq!(Policy::Batch.as_raw(), SCHED_BATCH);
    assert_eq!(Policy::Idle.as_raw(), SCHED_IDLE);
    assert_eq!(Policy::Deadline.as_raw(), SCHED_DEADLINE);
    assert_eq!(Policy::Ext.as_raw(), SCHED_EXT);
}

#[test]
fn policy_decode_rejects_unknown_codes() {
    // Code 4 is retired; codes past 7 are unassigned.
    assert_eq!(Policy::from_raw(4), Err(SysError::UnknownPolicy(4)));
    assert_eq!(Policy::from_raw(8), Err(SysError::UnknownPolicy(8)));
    assert_eq!(Policy::from_raw(u32::MAX), Err(SysError::UnknownPolicy(u32::MAX)));
}

#[test]
fn flags_truncate_unknown_bits() {
    assert_eq!(SchedFlags::empty().bits(), 0);
    let f = SchedFlags::from_bits_truncate(0xFF);
    assert_eq!(f.bits(), SCHED_FLAG_ALL);
    let g = SchedFlags::from_bits_truncate(0x1_0000_0003);
    assert_eq!(g.bits(), SCHED_FLAG_RESET_ON_FORK | SCHED_FLAG_RECLAIM);
    assert!(g.contains(SCHED_FLAG_RESET_ON_FORK));
    assert!(!g.contains(SCHED_FLAG_DL_OVERRUN));
    let h = SchedFlags::empty().insert(SCHED_FLAG_DL_OVERRUN);
    assert_eq!(h.bits(), SCHED_FLAG_DL_OVERRUN);
    assert_eq!(
        SchedFlags::from_bits_truncate(SCHED_FLAG_DL_OVERRUN),
        h
    );
}

#[test]
fn encode_populates_the_record() {
    let a = Attributes::fifo(60);
    let rec = a.encode();
    assert_eq!(rec.size, SCHED_ATTR_SIZE);
    assert_eq!(rec.sched_policy, SCHED_FIFO);
    assert_eq!(rec.sched_flags, 0);
    assert_eq!(rec.sched_nice, 0);
    assert_eq!(rec.sched_priority, 60);
    assert_eq!(rec.sched_runtime, 0);
    assert_eq!(rec.sched_deadline, 0);
    assert_eq!(rec.sched_period, 0);
    assert_eq!(rec.sched_util_min, 0);
    assert_eq!(rec.sched_util_max, 0);
}

#[test]
fn decode_round_trips_every_policy() {
    let all = [
        Attributes::normal(-20),
        Attributes::normal(19),
        Attributes::batch(4),
        Attributes::idle(),
        Attributes::fifo(60),
        Attributes::round_robin(98),
        Attributes::deadline(1_000_000, 1_000_000, 50_000).unwrap(),
    ];
    for a in all {
        assert_eq!(Attributes::decode(&a.encode()), Ok(a));
    }
}

#[test]
fn decode_rejects_unknown_policy_and_drops_unknown_flags() {
    let mut rec = SchedAttr {
        size: SCHED_ATTR_SIZE,
        sched_policy: 4,
        sched_flags: 0,
        sched_nice: 0,
        sched_priority: 0,
        sched_runtime: 0,
        sched_deadline: 0,
        sched_period: 0,
        sched_util_min: 0,
        sched_util_max: 0,
    };
    assert_eq!(Attributes::decode(&rec), Err(SysError::UnknownPolicy(4)));
    rec.sched_policy = SCHED_NORMAL;
    rec.sched_flags = 0xFFFF_FF81;
    let a = Attributes::decode(&rec).unwrap();
    assert_eq!(a.flags.bits(), SCHED_FLAG_RESET_ON_FORK);
}

#[test]
fn idle_attributes_read_back_as_idle() {
    let rec = Attributes::idle().encode();
    assert_eq!(rec.sched_policy, SCHED_IDLE);
    let back = Attributes::decode(&rec).unwrap();
    assert_eq!(back.policy, Policy::Idle);
}

#[test]
fn deadline_constructor_validates() {
    let ok = Attributes::deadline(1_000_000, 1_000_000, 50_000).unwrap();
    assert_eq!(ok.policy, Policy::Deadline);
    assert_eq!(ok.deadline_ns, 1_000_000);
    assert_eq!(ok.period_ns, 1_000_000);
    assert_eq!(ok.runtime_ns, 50_000);
    assert_eq!(ok.nice, 0);
    assert_eq!(ok.priority, 0);

    // Below the 1024-nanosecond floor (and ordering violated besides).
    assert_eq!(
        Attributes::deadline(500, 1_000_000, 50_000),
        Err(SysError::InvalidDeadline)
    );
    // Deadline larger than period.
    assert_eq!(
        Attributes::deadline(2_000_000, 1_000_000, 50_000),
        Err(SysError::InvalidDeadline)
    );
    // Runtime larger than deadline.
    assert_eq!(
        Attributes::deadline(1_000_000, 2_000_000, 1_500_000),
        Err(SysError::InvalidDeadline)
    );
    // Exactly at the floor is accepted.
    assert!(Attributes::deadline(DEADLINE_MIN_NS, DEADLINE_MIN_NS, DEADLINE_MIN_NS).is_ok());
}

#[test]
fn convenience_constructors_fill_fields() {
    let n = Attributes::normal(-20);
    assert_eq!(n.policy, Policy::Normal);
    assert_eq!(n.nice, -20);
    assert_eq!(n.priority, 0);
    let b = Attributes::batch(19);
    assert_eq!(b.policy, Policy::Batch);
    assert_eq!(b.nice, 19);
    let i = Attributes::idle();
    assert_eq!(i.policy, Policy::Idle);
    assert_eq!(i.nice, 0);
    let f = Attributes::fifo(60);
    assert_eq!(f.policy, Policy::Fifo);
    assert_eq!(f.priority, 60);
    assert_eq!(f.nice, 0);
    let r = Attributes::round_robin(98);
    assert_eq!(r.policy, Policy::RoundRobin);
    assert_eq!(r.priority, 98);
}

#[test]
fn pid_this_is_the_zero_sentinel() {
    assert_eq!(Pid::this().as_raw(), 0);
}

#[test]
fn yield_succeeds() {
    sched_yield().unwrap();
}

#[test]
fn test_affinity() {
    let set = get_affinity(Pid::this()).unwrap();
    let set = set.clear(0);
    set_affinity(Pid::this(), set).unwrap();
    let set = set.set(0);
    set_affinity(Pid::this(), set).unwrap();
    assert!(get_affinity(Pid::this()).unwrap().is_set(0));
}

#[test]
fn affinity_round_trip() {
    let mask = get_affinity(Pid::this()).unwrap();
    // The calling thread runs somewhere, so some core is a member.
    let mut any = false;
    for k in 0..CPU_SET_BITS {
        if mask.is_set(k) {
            any = true;
        }
    }
    assert!(any);
    set_affinity(Pid::this(), mask).unwrap();
    let back = get_affinity(Pid::this()).unwrap();
    assert_eq!(back, mask);
}
