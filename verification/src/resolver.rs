//! Timestamp resolution.
//!
//! A pcapng interface announces its tick granularity in one descriptor byte:
//! the low seven bits are an exponent, the high bit selects the base (set:
//! base 2, clear: base 10). A raw timestamp is a 64-bit tick count split over
//! two 32-bit words; dividing it by `base ^ exponent` yields whole seconds,
//! and the remainder scales to nanoseconds. Legacy pcap records carry seconds
//! and microseconds directly, which coincides with base 10, exponent 6.

use vstd::arithmetic::div_mod::{
    lemma_div_by_multiple, lemma_div_is_ordered, lemma_div_multiples_vanish_fancy,
    lemma_fundamental_div_mod, lemma_hoist_over_denominator, lemma_mod_division_less_than_divisor,
};
use vstd::arithmetic::mul::{lemma_mul_inequality, lemma_mul_is_commutative};
use vstd::arithmetic::power::{lemma_pow_increases, lemma_pow_positive, pow};
use vstd::arithmetic::power2::{lemma2_to64, lemma2_to64_rest, lemma_pow2};
use vstd::prelude::*;

use crate::errors::PipelineError;
use crate::timestamp::{diff_nanos, AbsoluteTimestamp};

verus! {

/// A decoded resolution descriptor: the base flag, the exponent, and the
/// divisor `base ^ exponent` they denote, which is the number of ticks per
/// second.
#[derive(Clone, Copy, Debug, PartialEq, Eq, Structural)]
pub struct Resolution {
    pub base_two: bool,
    pub exponent: u8,
    pub divisor: u64,
}

impl Resolution {
    /// The divisor really is `base ^ exponent`, and it fits in 64 bits.
    pub open spec fn wf(self) -> bool {
        if self.base_two {
            self.exponent <= 63 && self.divisor == pow(2, self.exponent as nat)
        } else {
            self.exponent <= 19 && self.divisor == pow(10, self.exponent as nat)
        }
    }
}

/// What decoding a descriptor byte yields: the exponent is the low seven
/// bits, the base flag the high bit, and descriptors whose divisor would
/// leave the 64-bit range are rejected.
pub open spec fn spec_resolution_from(descriptor: u8) -> Result<Resolution, PipelineError> {
    let exponent = descriptor & 0x7f;
    let base_two = descriptor & 0x80 == 0x80;
    if base_two && exponent <= 63 {
        Ok(Resolution { base_two: true, exponent, divisor: pow(2, exponent as nat) as u64 })
    } else if !base_two && exponent <= 19 {
        Ok(Resolution { base_two: false, exponent, divisor: pow(10, exponent as nat) as u64 })
    } else {
        Err(PipelineError::UnsupportedResolution)
    }
}

/// The fixed microsecond resolution: base 10, exponent 6. It is both the
/// implicit resolution of legacy captures and the pcapng default when an
/// interface declares none.
pub open spec fn micro_resolution() -> Resolution {
    Resolution { base_two: false, exponent: 6, divisor: 1_000_000 }
}

/// The 64-bit tick count assembled from its two 32-bit halves.
pub open spec fn ticks_of(high: u32, low: u32) -> int {
    high * 0x1_0000_0000 + low
}

/// What resolving a tick count yields: whole seconds are the quotient by the
/// divisor, the remainder scales to nanoseconds, and tick counts whose
/// seconds leave the signed 64-bit range are rejected.
pub open spec fn spec_resolve(r: Resolution, ticks: int) -> Result<AbsoluteTimestamp, PipelineError> {
    let secs = ticks / (r.divisor as int);
    let nanos = (ticks % (r.divisor as int)) * 1_000_000_000 / (r.divisor as int);
    if secs > i64::MAX {
        Err(PipelineError::TimestampOutOfRange)
    } else {
        Ok(AbsoluteTimestamp { secs: secs as i64, nanos: nanos as u32 })
    }
}

/// What decoding a legacy seconds/microseconds pair yields; microsecond
/// fields of one million or more are rejected.
pub open spec fn spec_decode_legacy(sec: u32, usec: u32) -> Result<AbsoluteTimestamp, PipelineError> {
    if usec < 1_000_000 {
        Ok(AbsoluteTimestamp { secs: sec as i64, nanos: (usec * 1000) as u32 })
    } else {
        Err(PipelineError::InvalidMicroseconds)
    }
}

/// The largest admissible base-10 divisor, as a number: it fits in 64 bits.
proof fn lemma_pow10_bound()
    ensures
        pow(10, 19) == 10_000_000_000_000_000_000,
{
    assert(pow(10, 19) == 10_000_000_000_000_000_000) by {
        reveal_with_fuel(pow, 20);
    }
}

/// The divisor of a well-formed resolution is positive and fits in 64 bits.
pub proof fn lemma_divisor_positive(r: Resolution)
    requires
        r.wf(),
    ensures
        1 <= r.divisor,
{
    if r.base_two {
        lemma_pow_positive(2, r.exponent as nat);
    } else {
        lemma_pow_positive(10, r.exponent as nat);
    }
}

impl Resolution {
    /// Decode a descriptor byte.
    pub fn from_byte(descriptor: u8) -> (r: Result<Resolution, PipelineError>)
        ensures
            r == spec_resolution_from(descriptor),
            r matches Ok(res) ==> res.wf(),
    {
        let exponent: u8 = descriptor & 0x7f;
        let base_two: bool = descriptor & 0x80 == 0x80;
        let limit: u8 = if base_two { 63 } else { 19 };
        if exponent > limit {
            return Err(PipelineError::UnsupportedResolution);
        }
        let base: u64 = if base_two { 2 } else { 10 };
        proof {
            lemma_pow2(63);
            lemma2_to64();
            lemma2_to64_rest();
            lemma_pow10_bound();
            vstd::arithmetic::power::lemma_pow0(base as int);
        }
        let mut divisor: u64 = 1;
        let mut i: u8 = 0;
        while i < exponent
            invariant
                i <= exponent,
                exponent <= limit,
                base == if base_two { 2u64 } else { 10u64 },
                limit == if base_two { 63u8 } else { 19u8 },
                divisor == pow(base as int, i as nat),
                pow(base as int, limit as nat) <= u64::MAX,
            decreases exponent - i,
        {
            proof {
                vstd::arithmetic::power::lemma_pow_adds(base as int, i as nat, 1);
                vstd::arithmetic::power::lemma_pow1(base as int);
                lemma_pow_increases(base as nat, (i + 1) as nat, limit as nat);
            }
            divisor = divisor * base;
            i = i + 1;
        }
        let res = Resolution { base_two, exponent, divisor };
        Ok(res)
    }

    /// The microsecond resolution as a value.
    pub fn microseconds() -> (r: Resolution)
        ensures
            r == micro_resolution(),
            r.wf(),
    {
        proof {
            assert(pow(10, 6) == 1_000_000) by {
                reveal_with_fuel(pow, 7);
            }
        }
        Resolution { base_two: false, exponent: 6, divisor: 1_000_000 }
    }

    /// Resolve a two-word pcapng tick count to an absolute timestamp.
    pub fn resolve(&self, ts_high: u32, ts_low: u32) -> (r: Result<AbsoluteTimestamp, PipelineError>)
        requires
            self.wf(),
        ensures
            r == spec_resolve(*self, ticks_of(ts_high, ts_low)),
            r matches Ok(ts) ==> ts.wf(),
    {
        proof {
            lemma_divisor_positive(*self);
        }
        let ticks: u64 = ((ts_high as u64) << 32) | (ts_low as u64);
        assert(((ts_high as u64) << 32) | (ts_low as u64)
            == (ts_high as u64) * 0x1_0000_0000 + (ts_low as u64)) by (bit_vector);
        let divisor: u64 = self.divisor;
        let secs: u64 = ticks / divisor;
        let rem: u64 = ticks % divisor;
        let scaled: u128 = (rem as u128) * 1_000_000_000;
        let nanos: u128 = scaled / (divisor as u128);
        proof {
            lemma_nanos_below_second(ticks as int, divisor as int);
        }
        if secs > i64::MAX as u64 {
            Err(PipelineError::TimestampOutOfRange)
        } else {
            Ok(AbsoluteTimestamp { secs: secs as i64, nanos: nanos as u32 })
        }
    }

    /// Decode a legacy seconds/microseconds timestamp.
    pub fn decode_legacy(ts_sec: u32, ts_usec: u32) -> (r: Result<AbsoluteTimestamp, PipelineError>)
        ensures
            r == spec_decode_legacy(ts_sec, ts_usec),
            r matches Ok(ts) ==> ts.wf(),
    {
        if ts_usec < 1_000_000 {
            Ok(AbsoluteTimestamp { secs: ts_sec as i64, nanos: ts_usec * 1000 })
        } else {
            Err(PipelineError::InvalidMicroseconds)
        }
    }
}

/// The scaled remainder of a tick division stays below one second.
proof fn lemma_nanos_below_second(ticks: int, divisor: int)
    requires
        0 <= ticks,
        1 <= divisor,
    ensures
        0 <= (ticks % divisor) * 1_000_000_000 / divisor < 1_000_000_000,
{
    let k: int = 1_000_000_000;
    lemma_mod_division_less_than_divisor(ticks, divisor);
    let rem = ticks % divisor;
    lemma_mul_inequality(rem, divisor - 1, k);
    assert((divisor - 1) * k == divisor * k - k) by (nonlinear_arith);
    assert(divisor * (k - 1) + (divisor - 1) == divisor * k - 1) by (nonlinear_arith);
    lemma_div_is_ordered(rem * k, divisor * (k - 1) + (divisor - 1), divisor);
    lemma_div_multiples_vanish_fancy(k - 1, divisor - 1, divisor);
    vstd::arithmetic::div_mod::lemma_div_pos_is_pos(rem * k, divisor);
    vstd::arithmetic::mul::lemma_mul_nonnegative(rem, k);
}

/// Cross-format consistency: a base-10, exponent-6 descriptor resolves a
/// tick count to exactly what the legacy decoder yields for the same count
/// split into whole seconds and leftover microseconds.
pub proof fn lemma_base10_micro_matches_legacy(r: Resolution, ticks: int)
    requires
        r.wf(),
        !r.base_two,
        r.exponent == 6,
        0 <= ticks,
        ticks / 1_000_000 <= u32::MAX,
    ensures
        spec_resolve(r, ticks) == spec_decode_legacy(
            (ticks / 1_000_000) as u32,
            (ticks % 1_000_000) as u32,
        ),
{
    assert(pow(10, 6) == 1_000_000) by {
        reveal_with_fuel(pow, 7);
    }
    let d: int = 1_000_000;
    lemma_mod_division_less_than_divisor(ticks, d);
    vstd::arithmetic::div_mod::lemma_div_pos_is_pos(ticks, d);
    let usec = ticks % d;
    assert(usec * 1_000_000_000 == (usec * 1000) * 1_000_000);
    lemma_div_by_multiple(usec * 1000, d);
    vstd::arithmetic::mul::lemma_mul_nonnegative(usec, 1000);
    lemma_nanos_below_second(ticks, d);
}

/// The resolved timestamp is, to the nanosecond, the tick count scaled by
/// one billion over the divisor, rounded down.
pub proof fn lemma_resolved_total_nanos(r: Resolution, ticks: int, ts: AbsoluteTimestamp)
    requires
        r.wf(),
        0 <= ticks,
        spec_resolve(r, ticks) == Ok::<AbsoluteTimestamp, PipelineError>(ts),
    ensures
        ts.as_nanos() == ticks * 1_000_000_000 / (r.divisor as int),
{
    let d: int = r.divisor as int;
    let k: int = 1_000_000_000;
    lemma_divisor_positive(r);
    lemma_fundamental_div_mod(ticks, d);
    let q = ticks / d;
    let rem = ticks % d;
    lemma_mod_division_less_than_divisor(ticks, d);
    vstd::arithmetic::div_mod::lemma_div_pos_is_pos(ticks, d);
    lemma_nanos_below_second(ticks, d);
    assert(ts.as_nanos() == q * k + (rem * k) / d);
    lemma_hoist_over_denominator(rem * k, q * k, d as nat);
    assert((rem * k) / d + q * k == (rem * k + (q * k) * d) / d);
    assert(rem * k + (q * k) * d == (d * q + rem) * k) by (nonlinear_arith);
    assert(ts.as_nanos() == ticks * k / d);
}

/// Round trip: the elapsed nanoseconds between two resolved timestamps equal
/// the raw tick difference scaled by the divisor, up to the one nanosecond
/// the two roundings may differ by.
pub proof fn lemma_elapsed_matches_tick_difference(
    r: Resolution,
    t1: int,
    t2: int,
    a: AbsoluteTimestamp,
    b: AbsoluteTimestamp,
)
    requires
        r.wf(),
        0 <= t1 <= t2,
        spec_resolve(r, t1) == Ok::<AbsoluteTimestamp, PipelineError>(a),
        spec_resolve(r, t2) == Ok::<AbsoluteTimestamp, PipelineError>(b),
    ensures
        (t2 - t1) * 1_000_000_000 / (r.divisor as int) <= diff_nanos(b, a),
        diff_nanos(b, a) <= (t2 - t1) * 1_000_000_000 / (r.divisor as int) + 1,
{
    let d: int = r.divisor as int;
    let k: int = 1_000_000_000;
    lemma_divisor_positive(r);
    lemma_resolved_total_nanos(r, t1, a);
    lemma_resolved_total_nanos(r, t2, b);
    let lo = t1 * k;
    let hi = t2 * k;
    let c = hi - lo;
    assert(t2 * k - t1 * k == (t2 - t1) * k) by (nonlinear_arith);
    vstd::arithmetic::mul::lemma_mul_nonnegative(t1, k);
    vstd::arithmetic::mul::lemma_mul_nonnegative(t2 - t1, k);
    lemma_fundamental_div_mod(lo, d);
    lemma_mod_division_less_than_divisor(lo, d);
    let q = lo / d;
    let rr = lo % d;
    // hi / d == q + (rr + c) / d
    lemma_hoist_over_denominator(rr + c, q, d as nat);
    assert(rr + c + q * d == hi) by {
        lemma_mul_is_commutative(q, d);
    }
    // (rr + c) / d is between c / d and c / d + 1
    lemma_div_is_ordered(c, rr + c, d);
    lemma_div_is_ordered(rr + c, c + d - 1, d);
    lemma_fundamental_div_mod(c, d);
    lemma_mod_division_less_than_divisor(c, d);
    let qc = c / d;
    let rc = c % d;
    lemma_hoist_over_denominator(rc + d - 1, qc, d as nat);
    assert(rc + d - 1 + qc * d == c + d - 1) by {
        lemma_mul_is_commutative(qc, d);
    }
    if rc >= 1 {
        lemma_div_multiples_vanish_fancy(1, rc - 1, d);
        assert((rc + d - 1) / d == (d * 1 + (rc - 1)) / d);
    } else {
        assert((rc + d - 1) / d == (d - 1) / d);
        lemma_div_multiples_vanish_fancy(0, d - 1, d);
        assert((d * 0 + (d - 1)) / d == 0);
    }
}

} // verus!
