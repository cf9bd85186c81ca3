use vstd::prelude::*;
use crate::cache::SnapshotCache;

verus! {

/// Full-scale input of the converter, in millivolts (the ±4.096 V range).
pub const FULL_SCALE_MILLIVOLTS: i64 = 4096;

/// The converter code that stands for the full-scale input (16-bit signed).
pub const FULL_SCALE_CODE: i64 = 32767;

/// Quotient of `p` by `q` (with `q > 0`), rounded to the nearest integer, halves away from zero.
pub open spec fn round_div(p: int, q: int) -> int
    recommends
        q > 0,
{
    if p >= 0 {
        (2 * p + q) / (2 * q)
    } else {
        -((q - 2 * p) / (2 * q))
    }
}

/// Thousand times the temperature compensation divisor `1 + 0.02 * (T - 25)`, for
/// `T` given in tenths of a degree: `1000 + 2 * (t - 250)`. It is zero at -25.0 °C
/// and negative below.
pub open spec fn compensation_permille(tenths: int) -> int {
    500 + 2 * tenths
}

/// `200 * d^3` times the calibration cubic `(133.42 v^3 - 255.86 v^2 + 857.39 v) / 2`
/// at `v = n / d`.
pub open spec fn tds_numerator(n: int, d: int) -> int {
    13342 * (n * n * n) - 25586 * (n * n * d) + 85739 * (n * (d * d))
}

pub open spec fn tds_denominator(d: int) -> int {
    200 * (d * d * d)
}

/// The calibration cubic at the voltage `n / d` volts (`d != 0`), rounded to the
/// nearest integer: for a negative `d` both parts of the quotient change sign.
pub open spec fn cubic_tds(n: int, d: int) -> int {
    if d > 0 {
        round_div(tds_numerator(n, d), tds_denominator(d))
    } else {
        round_div(-tds_numerator(n, d), -tds_denominator(d))
    }
}

/// Why no dissolved-solids value could be computed.
#[derive(Debug, Clone, Copy, PartialEq, Eq, Structural)]
pub enum TdsError {
    /// The temperature is exactly -25.0 °C, where the compensation divisor is zero.
    CompensationZero,
    /// The value does not fit in an `i64`.
    OutOfRange,
}

/// Dissolved solids in ppm for the compensated voltage `n / d` volts.
pub open spec fn tds_of_voltage(n: int, d: int) -> Result<i64, TdsError> {
    if d == 0 {
        Err(TdsError::CompensationZero)
    } else if cubic_tds(n, d) < i64::MIN || cubic_tds(n, d) > i64::MAX {
        Err(TdsError::OutOfRange)
    } else {
        Ok(cubic_tds(n, d) as i64)
    }
}

/// Dissolved solids for a reading of `u` microvolts at `tenths` tenths of a degree:
/// the compensated voltage is `(u / 10^6) / (permille / 1000) = u / (1000 * permille)`.
pub open spec fn tds_result(u: int, tenths: int) -> Result<i64, TdsError> {
    tds_of_voltage(u, 1000 * compensation_permille(tenths))
}

/// Dissolved solids for a converter code read at `tenths` tenths of a degree: the
/// code stands for `raw * 4.096 / 32767` volts, so the compensated voltage is
/// `raw * 4096 / (32767 * permille)`.
pub open spec fn tds_code_result(raw: int, tenths: int) -> Result<i64, TdsError> {
    tds_of_voltage(
        raw * FULL_SCALE_MILLIVOLTS as int,
        FULL_SCALE_CODE as int * compensation_permille(tenths),
    )
}

proof fn lemma_mul_within(a: int, b: int, x: int, y: int)
    requires
        -x <= a <= x,
        -y <= b <= y,
    ensures
        -(x * y) <= a * b <= x * y,
{
    assert(-(x * y) <= a * b <= x * y) by (nonlinear_arith)
        requires
            -x <= a <= x,
            -y <= b <= y,
    ;
}

/// Rounded quotient for `q > 0`, as `round_div` states it.
fn div_round(p: i128, q: i128) -> (r: i128)
    requires
        q > 0,
        i128::MIN / 8 < p < i128::MAX / 8,
        q < i128::MAX / 8,
    ensures
        r as int == round_div(p as int, q as int),
{
    if p >= 0 {
        (2 * p + q) / (2 * q)
    } else {
        -((q - 2 * p) / (2 * q))
    }
}

/// The rounded cubic at `n / d` volts, for `|n|, |d| <= 2^32`; an error for `d == 0`.
fn tds_of_quotient(n: i128, d: i128) -> (r: Result<i64, TdsError>)
    requires
        -0x1_0000_0000 <= n <= 0x1_0000_0000,
        -0x1_0000_0000 <= d <= 0x1_0000_0000,
    ensures
        r == tds_of_voltage(n as int, d as int),
{
    if d == 0 {
        return Err(TdsError::CompensationZero);
    }
    proof {
        let b: int = 0x1_0000_0000;
        lemma_mul_within(n as int, n as int, b, b);
        lemma_mul_within(n * n, n as int, b * b, b);
        lemma_mul_within(n * n, d as int, b * b, b);
        lemma_mul_within(d as int, d as int, b, b);
        lemma_mul_within(d * d, d as int, b * b, b);
        lemma_mul_within(n as int, d * d, b, b * b);
    }
    let nn = n * n;
    let nnn = nn * n;
    let nnd = nn * d;
    let dd = d * d;
    let ddd = dd * d;
    let ndd = n * dd;
    let p = 13342 * nnn - 25586 * nnd + 85739 * ndd;
    let q = 200 * ddd;
    let v = if d > 0 {
        proof {
            assert(q > 0) by (nonlinear_arith)
                requires
                    d > 0,
                    dd == d * d,
                    ddd == dd * d,
                    q == 200 * ddd,
            ;
        }
        div_round(p, q)
    } else {
        proof {
            assert(q < 0) by (nonlinear_arith)
                requires
                    d < 0,
                    dd == d * d,
                    ddd == dd * d,
                    q == 200 * ddd,
            ;
        }
        div_round(-p, -q)
    };
    if v < i64::MIN as i128 || v > i64::MAX as i128 {
        Err(TdsError::OutOfRange)
    } else {
        Ok(v as i64)
    }
}

/// Dissolved solids in ppm for a reading of `microvolts` compensated for a water
/// temperature of `temperature_tenths` tenths of a degree Celsius.
pub fn tds_ppm(microvolts: i32, temperature_tenths: i16) -> (r: Result<i64, TdsError>)
    ensures
        r == tds_result(microvolts as int, temperature_tenths as int),
{
    let permille: i128 = 500 + 2 * (temperature_tenths as i128);
    tds_of_quotient(microvolts as i128, 1000 * permille)
}

/// Dissolved solids in ppm for a converter code read at `temperature_tenths`.
pub fn tds_from_adc(raw: i16, temperature_tenths: i16) -> (r: Result<i64, TdsError>)
    ensures
        r == tds_code_result(raw as int, temperature_tenths as int),
{
    let permille: i128 = 500 + 2 * (temperature_tenths as i128);
    proof {
        lemma_mul_within(raw as int, FULL_SCALE_MILLIVOLTS as int, 32768, 4096);
        lemma_mul_within(FULL_SCALE_CODE as int, permille as int, 32767, 66034);
    }
    tds_of_quotient(
        (raw as i128) * (FULL_SCALE_MILLIVOLTS as i128),
        (FULL_SCALE_CODE as i128) * permille,
    )
}

/// At 25.0 °C the compensation divisor is one: the result is the calibration cubic
/// at the uncompensated voltage, `raw * 4.096 / 32767` volts for a converter code
/// and `u / 10^6` volts for a reading in microvolts.
pub proof fn lemma_reference_temperature(raw: int, u: int)
    ensures
        tds_code_result(raw, 250) == tds_of_voltage(raw * 4096, 32_767_000 as int),
        tds_result(u, 250) == tds_of_voltage(u, 1_000_000 as int),
{
}

/// Tenths of a degree for a 12-bit sensor reading in sixteenths of a degree, rounded.
pub open spec fn tenths_of_sixteenths(raw: int) -> int {
    round_div(raw * 10, 16)
}

/// Rounds a 12-bit temperature reading, in sixteenths of a degree Celsius, to tenths.
pub fn temperature_tenths(sixteenths: i16) -> (r: i16)
    ensures
        r as int == tenths_of_sixteenths(sixteenths as int),
{
    let r = div_round((sixteenths as i128) * 10, 16);
    assert(-20481 <= r <= 20481) by {
        let p = sixteenths as int * 10;
        if p >= 0 {
            assert((2 * p + 16) / (32 as int) <= 20481) by (nonlinear_arith)
                requires
                    0 <= p <= 327670,
            ;
        } else {
            assert((16 - 2 * p) / (32 as int) <= 20481) by (nonlinear_arith)
                requires
                    0 < -p <= 327680,
            ;
        }
    }
    r as i16
}

/// One completed sampling cycle.
#[derive(Debug, Clone, Copy, PartialEq, Eq, Structural)]
pub struct Measurement {
    /// Wall-clock time of the cycle, in milliseconds since the Unix epoch.
    pub timestamp: i64,
    /// Water temperature in tenths of a degree Celsius.
    pub temperature: i16,
    /// Total dissolved solids in ppm.
    pub tds: i64,
}

/// The measurement a cycle yields from its readings, or why it yields none.
pub open spec fn measurement_of(timestamp: i64, temperature: i16, raw_adc: i16) -> Result<
    Measurement,
    TdsError,
> {
    match tds_code_result(raw_adc as int, temperature as int) {
        Ok(tds) => Ok(Measurement { timestamp, temperature, tds }),
        Err(e) => Err(e),
    }
}

/// Completes a sampling cycle from its readings: the timestamp taken at its start,
/// the rounded temperature and the converter code of the dissolved-solids probe.
/// On success the measurement replaces the cached one; on failure the cache keeps
/// what it held.
pub fn update(
    cache: &mut SnapshotCache<Measurement>,
    timestamp: i64,
    temperature: i16,
    raw_adc: i16,
) -> (r: Result<Measurement, TdsError>)
    ensures
        r == measurement_of(timestamp, temperature, raw_adc),
        final(cache)@ == match r {
            Ok(m) => Some(m),
            Err(_) => old(cache)@,
        },
{
    match tds_from_adc(raw_adc, temperature) {
        Ok(tds) => {
            let m = Measurement { timestamp, temperature, tds };
            cache.publish(m);
            Ok(m)
        },
        Err(e) => Err(e),
    }
}

} // verus!
