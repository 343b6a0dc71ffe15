//! A fixed-point time value with seconds + nanoseconds split representation.
//!
//! `TimeSpec` mirrors the kernel's two-word time record. Construction from a
//! total nanosecond count uses truncating division and remainder, so for
//! negative totals both fields come out non-positive; the pair is never
//! normalized to a non-negative remainder, exactly as the kernel record
//! allows.

use vstd::arithmetic::div_mod::{
    lemma_fundamental_div_mod, lemma_mod_division_less_than_divisor, lemma_div_nonincreasing,
    lemma_div_pos_is_pos,
};
use vstd::arithmetic::mul::lemma_mul_unary_negation;
use vstd::prelude::*;

verus! {

pub const NANOS_PER_SEC: i64 = 1_000_000_000;
pub const NANOS_PER_MICRO: i64 = 1_000;
pub const NANOS_PER_MILLI: i64 = 1_000_000;
pub const MICROS_PER_SEC: i64 = 1_000_000;
pub const MILLIS_PER_SEC: i64 = 1_000;

/// Truncating division (the quotient is rounded toward zero), for a positive
/// divisor. This is the semantics of the machine division instruction, as
/// opposed to the Euclidean `/` of ghost code.
pub open spec fn div_trunc(x: int, d: int) -> int
    recommends
        d > 0,
{
    if x >= 0 {
        x / d
    } else {
        -((-x) / d)
    }
}

/// Truncating remainder: the remainder carries the sign of the dividend.
pub open spec fn rem_trunc(x: int, d: int) -> int
    recommends
        d > 0,
{
    if x >= 0 {
        x % d
    } else {
        -((-x) % d)
    }
}

/// Truncating division and remainder recompose to the dividend, and the
/// remainder is smaller than the divisor in magnitude, with the dividend's
/// sign.
pub proof fn lemma_div_rem_trunc(x: int, d: int)
    requires
        d > 0,
    ensures
        d * div_trunc(x, d) + rem_trunc(x, d) == x,
        x >= 0 ==> 0 <= rem_trunc(x, d) < d && 0 <= div_trunc(x, d) <= x,
        x < 0 ==> -d < rem_trunc(x, d) <= 0 && x <= div_trunc(x, d) <= 0,
{
    if x >= 0 {
        lemma_fundamental_div_mod(x, d);
        lemma_mod_division_less_than_divisor(x, d);
        lemma_div_nonincreasing(x, d);
        lemma_div_pos_is_pos(x, d);
    } else {
        lemma_fundamental_div_mod(-x, d);
        lemma_mod_division_less_than_divisor(-x, d);
        lemma_div_nonincreasing(-x, d);
        lemma_div_pos_is_pos(-x, d);
        lemma_mul_unary_negation(d, (-x) / d);
    }
}

/// A time value or duration: `tv_sec` whole seconds plus `tv_nsec`
/// nanoseconds. The layout the kernel expects is two signed 64-bit words in
/// this order.
#[derive(Clone, Copy, Debug, PartialEq, Eq, Structural)]
pub struct TimeSpec {
    pub tv_sec: i64,
    pub tv_nsec: i64,
}

impl TimeSpec {
    /// The total nanosecond count this value denotes, as a mathematical
    /// integer.
    pub open spec fn total_ns(self) -> int {
        self.tv_sec * (NANOS_PER_SEC as int) + self.tv_nsec
    }

    /// The unique truncating decomposition of a nanosecond count into
    /// (seconds, sub-second remainder).
    pub open spec fn spec_from_nanoseconds(n: i64) -> TimeSpec {
        TimeSpec {
            tv_sec: div_trunc(n as int, NANOS_PER_SEC as int) as i64,
            tv_nsec: rem_trunc(n as int, NANOS_PER_SEC as int) as i64,
        }
    }

    /// The value of the addition of two time values: the operands' total
    /// counts are summed and the sum decomposed anew, so the result is
    /// always in canonical split form.
    pub open spec fn spec_add(self, rhs: TimeSpec) -> TimeSpec {
        Self::spec_from_nanoseconds((self.total_ns() + rhs.total_ns()) as i64)
    }

    /// The value of the subtraction of two time values, renormalized the
    /// same way as `spec_add`.
    pub open spec fn spec_sub(self, rhs: TimeSpec) -> TimeSpec {
        Self::spec_from_nanoseconds((self.total_ns() - rhs.total_ns()) as i64)
    }

    /// Law: decomposing a 64-bit nanosecond count keeps each field within 64
    /// bits and the remainder below one second in magnitude, and the two
    /// fields recompose to exactly the count decomposed (round trip).
    pub proof fn lemma_nanoseconds_round_trip(n: i64)
        ensures
            i64::MIN <= div_trunc(n as int, NANOS_PER_SEC as int) <= i64::MAX,
            -(NANOS_PER_SEC as int) < rem_trunc(n as int, NANOS_PER_SEC as int)
                < NANOS_PER_SEC as int,
            Self::spec_from_nanoseconds(n).total_ns() == n,
    {
        lemma_div_rem_trunc(n as int, NANOS_PER_SEC as int);
    }

    /// Law: adding the decompositions of two counts and reading the total
    /// back yields exactly their sum, whenever that sum fits in 64 bits.
    pub proof fn lemma_add_round_trip(a: i64, b: i64)
        requires
            i64::MIN <= a + b <= i64::MAX,
        ensures
            Self::spec_from_nanoseconds(a).spec_add(Self::spec_from_nanoseconds(b)).total_ns()
                == a + b,
    {
        Self::lemma_nanoseconds_round_trip(a);
        Self::lemma_nanoseconds_round_trip(b);
        Self::lemma_nanoseconds_round_trip((a + b) as i64);
    }

    pub fn new() -> (r: Self)
        ensures
            r.tv_sec == 0 && r.tv_nsec == 0,
    {
        Self::zeroed()
    }

    pub fn zeroed() -> (r: Self)
        ensures
            r.tv_sec == 0 && r.tv_nsec == 0,
    {
        Self { tv_sec: 0, tv_nsec: 0 }
    }

    /// Decomposes a total nanosecond count into seconds and a sub-second
    /// remainder, truncating toward zero, so both fields carry the sign of
    /// the input.
    pub fn nanoseconds(nanoseconds: i64) -> (r: Self)
        ensures
            r == Self::spec_from_nanoseconds(nanoseconds),
            r.total_ns() == nanoseconds,
    {
        proof {
            Self::lemma_nanoseconds_round_trip(nanoseconds);
        }
        let (sec, nsec) = div_rem_trunc_i64(nanoseconds, NANOS_PER_SEC);
        Self { tv_sec: sec, tv_nsec: nsec }
    }

    /// Recomposes the total nanosecond count. The two fields must denote a
    /// count that fits in 64 bits.
    pub fn as_nanoseconds(&self) -> (r: i64)
        requires
            i64::MIN <= self.total_ns() <= i64::MAX,
        ensures
            r == self.total_ns(),
    {
        let total: i128 = (self.tv_sec as i128) * 1_000_000_000 + (self.tv_nsec as i128);
        total as i64
    }

    /// Projects the value onto whole microseconds: seconds scaled up, plus
    /// the nanosecond remainder scaled down with truncation. Lossy for any
    /// remainder not divisible by a thousand.
    pub fn as_microseconds(&self) -> (r: i64)
        requires
            i64::MIN <= self.tv_sec * (MICROS_PER_SEC as int) + div_trunc(
                self.tv_nsec as int,
                NANOS_PER_MICRO as int,
            ) <= i64::MAX,
        ensures
            r == self.tv_sec * (MICROS_PER_SEC as int) + div_trunc(
                self.tv_nsec as int,
                NANOS_PER_MICRO as int,
            ),
    {
        let (q, _rem) = div_rem_trunc_i64(self.tv_nsec, NANOS_PER_MICRO);
        let total: i128 = (self.tv_sec as i128) * 1_000_000 + (q as i128);
        total as i64
    }

    /// Projects the value onto whole milliseconds, truncating like
    /// `as_microseconds`.
    pub fn as_milliseconds(&self) -> (r: i64)
        requires
            i64::MIN <= self.tv_sec * (MILLIS_PER_SEC as int) + div_trunc(
                self.tv_nsec as int,
                NANOS_PER_MILLI as int,
            ) <= i64::MAX,
        ensures
            r == self.tv_sec * (MILLIS_PER_SEC as int) + div_trunc(
                self.tv_nsec as int,
                NANOS_PER_MILLI as int,
            ),
    {
        let (q, _rem) = div_rem_trunc_i64(self.tv_nsec, NANOS_PER_MILLI);
        let total: i128 = (self.tv_sec as i128) * 1_000 + (q as i128);
        total as i64
    }

    /// Adds two time values by total nanosecond count; the result is
    /// renormalized into the canonical truncating split even if the operands
    /// were not canonical.
    pub fn add(self, rhs: TimeSpec) -> (r: TimeSpec)
        requires
            i64::MIN <= self.total_ns() <= i64::MAX,
            i64::MIN <= rhs.total_ns() <= i64::MAX,
            i64::MIN <= self.total_ns() + rhs.total_ns() <= i64::MAX,
        ensures
            r == self.spec_add(rhs),
            r.total_ns() == self.total_ns() + rhs.total_ns(),
    {
        proof {
            Self::lemma_nanoseconds_round_trip((self.total_ns() + rhs.total_ns()) as i64);
        }
        Self::nanoseconds(self.as_nanoseconds() + rhs.as_nanoseconds())
    }

    /// Subtracts two time values by total nanosecond count, renormalizing
    /// like `add`.
    pub fn sub(self, rhs: TimeSpec) -> (r: TimeSpec)
        requires
            i64::MIN <= self.total_ns() <= i64::MAX,
            i64::MIN <= rhs.total_ns() <= i64::MAX,
            i64::MIN <= self.total_ns() - rhs.total_ns() <= i64::MAX,
        ensures
            r == self.spec_sub(rhs),
            r.total_ns() == self.total_ns() - rhs.total_ns(),
    {
        proof {
            Self::lemma_nanoseconds_round_trip((self.total_ns() - rhs.total_ns()) as i64);
        }
        Self::nanoseconds(self.as_nanoseconds() - rhs.as_nanoseconds())
    }
}

impl Default for TimeSpec {
    fn default() -> (r: Self)
        ensures
            r.tv_sec == 0 && r.tv_nsec == 0,
    {
        Self::new()
    }
}

/// Truncating division and remainder of a 64-bit value by a positive 64-bit
/// divisor, matching the machine semantics where the ghost `/` and `%` are
/// Euclidean.
fn div_rem_trunc_i64(x: i64, d: i64) -> (r: (i64, i64))
    requires
        d > 0,
    ensures
        r.0 == div_trunc(x as int, d as int),
        r.1 == rem_trunc(x as int, d as int),
{
    proof {
        lemma_div_rem_trunc(x as int, d as int);
    }
    if x >= 0 {
        ((x as u64 / d as u64) as i64, (x as u64 % d as u64) as i64)
    } else {
        let m = (-(x as i128)) as u64;
        let q = m / (d as u64);
        let rem = m % (d as u64);
        ((-(q as i128)) as i64, (-(rem as i128)) as i64)
    }
}

} // verus!
