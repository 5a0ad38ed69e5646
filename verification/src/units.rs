//! Conversions between a codec's timestamp domain and nanoseconds.
//!
//! A time base is the rational factor `numer / denom` seconds per timestamp
//! unit. All conversions are exact integer arithmetic over wide
//! intermediates, saturated into `u64` at the edge.

use vstd::prelude::*;

verus! {

pub const NS_PER_SEC: u64 = 1_000_000_000;

/// The nanosecond value of `ts` timestamp units under the time base
/// `numer / denom` seconds per unit, truncated to whole nanoseconds.
pub open spec fn timestamp_ns(ts: int, numer: int, denom: int) -> int {
    ts * numer * 1_000_000_000 / denom
}

/// The largest whole timestamp count under `numer / denom` seconds per unit
/// that does not pass `ns` nanoseconds.
pub open spec fn ns_timestamp(ns: int, numer: int, denom: int) -> int {
    ns * denom / (numer * 1_000_000_000)
}

/// Saturation of a mathematical integer into `u64`.
pub open spec fn sat64(v: int) -> int {
    if v > u64::MAX {
        u64::MAX as int
    } else {
        v
    }
}

/// Converts a timestamp to nanoseconds under the time base `numer / denom`,
/// saturating at `u64::MAX`.
pub fn timestamp_to_ns(ts: u64, numer: u32, denom: u32) -> (r: u64)
    requires
        denom > 0,
    ensures
        r == sat64(timestamp_ns(ts as int, numer as int, denom as int)),
{
    proof {
        assert(0 <= (ts as int) * (numer as int) <= 0xffff_ffff_ffff_ffffu64 * 0xffff_ffffu32)
            by (nonlinear_arith)
            requires 0 <= ts <= 0xffff_ffff_ffff_ffffu64, 0 <= numer <= 0xffff_ffffu32,
        ;
        assert(0 <= (ts as int) * (numer as int) * 1_000_000_000
            <= 0xffff_ffff_ffff_ffffu64 * 0xffff_ffffu32 * 1_000_000_000)
            by (nonlinear_arith)
            requires 0 <= (ts as int) * (numer as int) <= 0xffff_ffff_ffff_ffffu64 * 0xffff_ffffu32,
        ;
    }
    let wide: u128 = (ts as u128) * (numer as u128) * (NS_PER_SEC as u128);
    let q: u128 = wide / (denom as u128);
    if q > u64::MAX as u128 {
        u64::MAX
    } else {
        q as u64
    }
}

/// Converts nanoseconds to a timestamp count under the time base
/// `numer / denom`, saturating at `u64::MAX`.
pub fn ns_to_timestamp(ns: u64, numer: u32, denom: u32) -> (r: u64)
    requires
        numer > 0,
    ensures
        r == sat64(ns_timestamp(ns as int, numer as int, denom as int)),
{
    proof {
        assert(0 <= (ns as int) * (denom as int) <= 0xffff_ffff_ffff_ffffu64 * 0xffff_ffffu32)
            by (nonlinear_arith)
            requires 0 <= ns <= 0xffff_ffff_ffff_ffffu64, 0 <= denom <= 0xffff_ffffu32,
        ;
        assert(0 < (numer as int) * 1_000_000_000 <= 0xffff_ffffu32 * 1_000_000_000)
            by (nonlinear_arith)
            requires 0 < numer <= 0xffff_ffffu32,
        ;
    }
    let wide: u128 = (ns as u128) * (denom as u128);
    let div: u128 = (numer as u128) * (NS_PER_SEC as u128);
    let q: u128 = wide / div;
    if q > u64::MAX as u128 {
        u64::MAX
    } else {
        q as u64
    }
}

} // verus!
