//! Conversion between physical angles and the servo's raw units.
//!
//! Angles are carried as microradians in an `i64`.  The servo encodes a
//! position as a 12-bit value: one full turn spans 4096 raw units with
//! the zero angle at the span's midpoint, 2048.  Velocities come back as
//! a signed raw count worth a fixed number of microradians per second
//! each.

use vstd::prelude::*;

verus! {

use vstd::arithmetic::div_mod::lemma_fundamental_div_mod;
use vstd::arithmetic::div_mod::lemma_mod_bound;

/// One full turn (2 * pi radians) in microradians.
pub const TWO_PI_URAD: i64 = 6283185;

/// Raw units per full turn.
pub const RAW_SPAN: i64 = 4096;

/// Raw value of the zero angle.
pub const RAW_CENTER: i64 = 2048;

/// Angular worth of one raw unit, rounded up: the resolution of the
/// position encoding.
pub const RAW_UNIT_URAD: i64 = 1534;

/// Largest microradian magnitude that converts without clamping:
/// half a turn, truncated.
pub const URAD_HALF_TURN: i64 = 3141592;

/// Microradians per second carried by one thousand raw velocity units
/// (one raw unit is a fixed fraction of a turn per minute).
pub const VEL_URAD_PER_KRAW: i64 = 1214749;

/// Raw position for an angle in microradians: scale into the 4096-unit
/// span, shift to the midpoint, clamp to the representable range.
pub open spec fn rad_to_raw_spec(urad: int) -> int {
    let raw = (urad * RAW_SPAN) / (TWO_PI_URAD as int) + RAW_CENTER;
    if raw < 0 {
        0
    } else if raw > 4095 {
        4095
    } else {
        raw
    }
}

/// Angle in microradians for a raw position.
pub open spec fn raw_to_rad_spec(raw: int) -> int {
    ((raw - RAW_CENTER) * TWO_PI_URAD) / (RAW_SPAN as int)
}

/// Angular velocity in microradians per second for a raw velocity count.
pub open spec fn raw_to_vel_spec(raw: int) -> int {
    (raw * VEL_URAD_PER_KRAW) / 1000
}

/// Convert an angle in microradians to the servo's raw position unit.
pub fn rad_to_raw(urad: i64) -> (r: i16)
    requires
        -1_000_000_000 <= urad <= 1_000_000_000,
    ensures
        r == rad_to_raw_spec(urad as int),
        0 <= r <= 4095,
{
    let scaled = match (urad * RAW_SPAN).checked_div_euclid(TWO_PI_URAD) {
        Some(q) => q,
        None => 0,  // unreachable: the divisor is a nonzero constant
    };
    let raw = scaled + RAW_CENTER;
    if raw < 0 {
        0
    } else if raw > 4095 {
        4095
    } else {
        raw as i16
    }
}

/// Convert a raw servo position to an angle in microradians.
pub fn raw_to_rad(raw: i16) -> (r: i64)
    ensures
        r == raw_to_rad_spec(raw as int),
{
    match ((raw as i64 - RAW_CENTER) * TWO_PI_URAD).checked_div_euclid(RAW_SPAN) {
        Some(q) => q,
        None => 0,  // unreachable: the divisor is a nonzero constant
    }
}

/// Convert a raw servo velocity count to microradians per second.
pub fn raw_to_rad_per_sec(raw: i16) -> (r: i64)
    ensures
        r == raw_to_vel_spec(raw as int),
{
    match ((raw as i64) * VEL_URAD_PER_KRAW).checked_div_euclid(1000) {
        Some(q) => q,
        None => 0,  // unreachable: the divisor is a nonzero constant
    }
}

/// Unit round-trip: within half a turn of zero, converting an angle to
/// raw units and back loses at most one raw unit's worth of resolution,
/// and never overshoots the original angle.
pub proof fn lemma_unit_round_trip(urad: int)
    requires
        -URAD_HALF_TURN <= urad <= URAD_HALF_TURN,
    ensures
        0 <= urad - raw_to_rad_spec(rad_to_raw_spec(urad)) <= RAW_UNIT_URAD,
        0 <= rad_to_raw_spec(urad) <= 4095,
{
    let t = TWO_PI_URAD as int;
    let q = (urad * 4096) / t;
    lemma_fundamental_div_mod(urad * 4096, t);
    lemma_mod_bound(urad * 4096, t);
    let r = (urad * 4096) % t;
    // urad * 4096 == t * q + r, 0 <= r < t
    assert(-URAD_HALF_TURN * 4096 <= urad * 4096 <= URAD_HALF_TURN * 4096) by (nonlinear_arith)
        requires
            -URAD_HALF_TURN <= urad <= URAD_HALF_TURN,
    ;
    // q stays in [-2048, 2047], so the clamp never engages
    assert(q >= -2048) by {
        assert(t * q == urad * 4096 - r);
        assert(t * q > -2049 * t);
        assert(q > -2049) by (nonlinear_arith)
            requires
                t > 0,
                t * q > -2049 * t,
        ;
    }
    assert(q <= 2047) by {
        assert(t * q == urad * 4096 - r);
        assert(t * q < 2048 * t);
        assert(q < 2048) by (nonlinear_arith)
            requires
                t > 0,
                t * q < 2048 * t,
        ;
    }
    let raw = rad_to_raw_spec(urad);
    assert(raw == q + 2048);
    let back = raw_to_rad_spec(raw);
    assert(back == (q * t) / 4096);
    lemma_fundamental_div_mod(q * t, 4096);
    lemma_mod_bound(q * t, 4096);
    let s = (q * t) % 4096;
    // q * t == 4096 * back + s, 0 <= s < 4096
    assert(4096 * (urad - back) == r + s) by {
        assert(t * q == urad * 4096 - r);
        assert(q * t == t * q) by (nonlinear_arith);
        assert(q * t == 4096 * back + s);
    }
    assert(0 <= urad - back <= 1534) by {
        assert(0 <= 4096 * (urad - back) <= t - 1 + 4095);
        assert(0 <= urad - back) by (nonlinear_arith)
            requires
                0 <= 4096 * (urad - back),
        ;
        assert(urad - back <= 1534) by (nonlinear_arith)
            requires
                4096 * (urad - back) <= 6287279,
        ;
    }
}

} // verus!
