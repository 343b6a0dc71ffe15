use sched_clock::clock::{get_time, nanosleep_absolute, nanosleep_relative, set_time};
use sched_clock::ClockId;
use sched_clock::SysError;
use sched_clock::TimeSpec;

#[test]
fn test_nanos() {
    assert_eq!(
        TimeSpec::nanoseconds(0),
        TimeSpec {
            tv_sec: 0,
            tv_nsec: 0
        }
    );
    assert_eq!(
        TimeSpec::nanoseconds(-0),
        TimeSpec {
            tv_sec: 0,
            tv_nsec: 0
        }
    );

    assert_eq!(
        TimeSpec::nanoseconds(1_000_000_000),
        TimeSpec {
            tv_sec: 1,
            tv_nsec: 0
        }
    );
    assert_eq!(
        TimeSpec::nanoseconds(999_999_999),
        TimeSpec {
            tv_sec: 0,
            tv_nsec: 999_999_999
        }
    );
    assert_eq!(
        TimeSpec::nanoseconds(1_999_999_999),
        TimeSpec {
            tv_sec: 1,
            tv_nsec: 999_999_999
        }
    );

    assert_eq!(
        TimeSpec::nanoseconds(-1_999_999_999),
        TimeSpec {
            tv_sec: -1,
            tv_nsec: -999_999_999
        }
    );
}

#[test]
fn test_time() {
    let time = get_time(ClockId::ClockBoottime).unwrap();
    assert!(time.tv_sec > 0);
}

#[test]
fn test_sleep() {
    nanosleep_relative(
        ClockId::ClockMonotonic,
        TimeSpec {
            tv_sec: 0,
            tv_nsec: 1_000_000,
        },
    )
    .unwrap();
}

#[test]
fn nanoseconds_round_trip() {
    let samples: [i64; 9] = [
        0,
        1,
        -1,
        999_999_999,
        1_999_999_999,
        -1_999_999_999,
        3_000_000_001,
        i64::MAX,
        i64::MIN,
    ];
    for n in samples {
        assert_eq!(TimeSpec::nanoseconds(n).as_nanoseconds(), n);
    }
}

#[test]
fn add_recovers_exact_sum() {
    let pairs: [(i64, i64); 4] = [
        (1_999_999_999, -500),
        (1_500_000_000, 1_500_000_000),
        (-2_000_000_001, -999),
        (0, i64::MAX),
    ];
    for (a, b) in pairs {
        let sum = TimeSpec::nanoseconds(a).add(TimeSpec::nanoseconds(b));
        assert_eq!(sum.as_nanoseconds(), a + b);
    }
    let s = TimeSpec::nanoseconds(1_999_999_999).add(TimeSpec::nanoseconds(1_999_999_999));
    assert_eq!(
        s,
        TimeSpec {
            tv_sec: 3,
            tv_nsec: 999_999_998
        }
    );
}

#[test]
fn sub_recovers_exact_difference() {
    let d = TimeSpec::nanoseconds(1_000_000_000).sub(TimeSpec::nanoseconds(1));
    assert_eq!(
        d,
        TimeSpec {
            tv_sec: 0,
            tv_nsec: 999_999_999
        }
    );
    assert_eq!(d.as_nanoseconds(), 999_999_999);
    let neg = TimeSpec::nanoseconds(-500).sub(TimeSpec::nanoseconds(1_000_000_000));
    assert_eq!(neg.as_nanoseconds(), -1_000_000_500);
}

#[test]
fn unit_projections_truncate() {
    let t = TimeSpec {
        tv_sec: 1,
        tv_nsec: 2_500,
    };
    assert_eq!(t.as_microseconds(), 1_000_002);
    assert_eq!(t.as_milliseconds(), 1_000);
    let m = TimeSpec {
        tv_sec: 1,
        tv_nsec: 2_500_000,
    };
    assert_eq!(m.as_milliseconds(), 1_002);
    let neg = TimeSpec {
        tv_sec: -1,
        tv_nsec: -2_500,
    };
    assert_eq!(neg.as_microseconds(), -1_000_002);
    let tiny = TimeSpec {
        tv_sec: 0,
        tv_nsec: 999,
    };
    assert_eq!(tiny.as_microseconds(), 0);
}

#[test]
fn zeroed_constructors() {
    let z = TimeSpec::zeroed();
    assert_eq!(z.tv_sec, 0);
    assert_eq!(z.tv_nsec, 0);
    assert_eq!(TimeSpec::new(), z);
    assert_eq!(TimeSpec::default(), z);
}

#[test]
fn clock_id_round_trip() {
    let all = [
        ClockId::ClockRealtime,
        ClockId::ClockRealtimeAlarm,
        ClockId::ClockRealtimeCoarse,
        ClockId::ClockTai,
        ClockId::ClockMonotonic,
        ClockId::ClockMonotonicCoarse,
        ClockId::ClockMonotonicRaw,
        ClockId::ClockBoottime,
        ClockId::ClockBoottimeAlarm,
        ClockId::ClockProcessCputimeId,
        ClockId::ClockThreadCputimeId,
    ];
    for c in all {
        assert_eq!(ClockId::from_raw(c.as_raw()), Some(c));
    }
    assert_eq!(ClockId::ClockRealtime.as_raw(), 0);
    assert_eq!(ClockId::ClockMonotonic.as_raw(), 1);
    assert_eq!(ClockId::ClockBoottime.as_raw(), 7);
    assert_eq!(ClockId::ClockTai.as_raw(), 11);
    // Identifier 10 is retired and must stay unmapped.
    assert_eq!(ClockId::from_raw(10), None);
    assert_eq!(ClockId::from_raw(12), None);
    assert_eq!(ClockId::from_raw(-1), None);
}

#[test]
fn set_time_on_non_settable_clock_fails() {
    let now = get_time(ClockId::ClockMonotonic).unwrap();
    let r = set_time(ClockId::ClockMonotonic, now);
    assert!(matches!(r, Err(SysError::Os(_))));
}

#[test]
fn absolute_sleep_in_the_past_returns_at_once() {
    let now = get_time(ClockId::ClockMonotonic).unwrap();
    let past = now.sub(TimeSpec::nanoseconds(1_000_000));
    nanosleep_absolute(ClockId::ClockMonotonic, past).unwrap();
}
