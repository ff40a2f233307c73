//! Conversion between raw register codes and physical quantities, in
//! integer milli-units (mV, mA, mW) and centidegrees Celsius.
use vstd::prelude::*;

verus! {

/// Largest value of a 16-bit wire field.
pub const WIRE_MAX: u16 = 0xFFFF;

/// Sensor voltage at 25 degrees Celsius, in microvolts.
pub const TS_V25_UV: i32 = 1_200_000;
/// Sensor ADC step, in microvolts per code.
pub const TS_LSB_UV: i32 = 382;
/// Sensor slope, in microvolts per centidegree.
pub const TS_UV_PER_CENTIDEGREE: i32 = 42;
/// 25 degrees Celsius in centidegrees.
pub const TS_REFERENCE_CENTIDEGREES: i32 = 2500;

/// The scale of one charger ADC channel: a code stands for
/// `code * lsb - offset` milli-units.
#[derive(Clone, Copy, Debug, PartialEq, Eq, Structural)]
pub struct AdcScale {
    /// Milli-units per code step; positive.
    pub lsb: u32,
    /// Milli-units subtracted after scaling.
    pub offset: u32,
}

/// The physical value, in milli-units, that `code` stands for.
pub open spec fn adc_value(s: AdcScale, code: u16) -> int {
    code * s.lsb - s.offset
}

/// `n / d` rounded to the nearest integer, halves away from zero, for `n > 0`.
pub open spec fn round_div(n: int, d: int) -> int {
    (2 * n + d) / (2 * d)
}

/// The code that a value of `v` milli-units is sent as: the offset added
/// back, divided by the step and rounded to the nearest integer, then
/// saturated to the 16-bit field.
pub open spec fn adc_code(s: AdcScale, v: int) -> u16 {
    let n = v + s.offset;
    if n <= 0 {
        0
    } else if round_div(n, s.lsb as int) > WIRE_MAX {
        WIRE_MAX
    } else {
        round_div(n, s.lsb as int) as u16
    }
}

/// `a / d` rounded toward zero, as integer division on the device does.
pub open spec fn trunc_div(a: int, d: int) -> int {
    if a >= 0 {
        a / d
    } else {
        -((-a) / d)
    }
}

/// Temperature, in centidegrees, for a sensor voltage of `uv` microvolts.
pub open spec fn centidegrees_of_microvolts(uv: int) -> int {
    TS_REFERENCE_CENTIDEGREES - trunc_div(uv - TS_V25_UV, TS_UV_PER_CENTIDEGREE as int)
}

/// Temperature, in centidegrees, for a sensor ADC code; the same line is
/// used whether or not the sensors are external thermistors.
pub open spec fn ts_centidegrees(raw: u16) -> int {
    centidegrees_of_microvolts(raw * TS_LSB_UV)
}

/// The sensor code that a temperature of `cc` centidegrees is sent as: the
/// sensor voltage divided by the step and rounded to the nearest integer,
/// saturated to the 16-bit field.
pub open spec fn ts_code(cc: int) -> u16 {
    let uv = TS_V25_UV + (TS_REFERENCE_CENTIDEGREES - cc) * TS_UV_PER_CENTIDEGREE;
    if uv <= 0 {
        0
    } else if round_div(uv, TS_LSB_UV as int) > WIRE_MAX {
        WIRE_MAX
    } else {
        round_div(uv, TS_LSB_UV as int) as u16
    }
}

impl AdcScale {
    pub open spec fn wf(&self) -> bool {
        self.lsb > 0
    }

    /// The physical value, in milli-units, of an ADC code.
    pub fn to_milli(&self, code: u16) -> (r: i64)
        ensures
            r == adc_value(*self, code),
    {
        assert(code * self.lsb <= 0xFFFF * 0xFFFF_FFFFu64) by (nonlinear_arith)
            requires
                code <= 0xFFFF,
                self.lsb <= 0xFFFF_FFFF,
        ;
        let scaled: u64 = code as u64 * self.lsb as u64;
        scaled as i64 - self.offset as i64
    }

    /// The ADC code that a physical value of `v` milli-units is sent as.
    pub fn to_code(&self, v: i64) -> (r: u16)
        requires
            self.wf(),
        ensures
            r == adc_code(*self, v as int),
    {
        let n: i128 = v as i128 + self.offset as i128;
        if n <= 0 {
            return 0;
        }
        let d: i128 = self.lsb as i128;
        let q: i128 = (2 * n + d) / (2 * d);
        if q > WIRE_MAX as i128 {
            WIRE_MAX
        } else {
            q as u16
        }
    }
}

/// Temperature, in centidegrees, for a sensor ADC code.
pub fn ts_raw_to_centidegrees(raw: u16) -> (r: i32)
    ensures
        r == ts_centidegrees(raw),
{
    let uv: i32 = raw as i32 * TS_LSB_UV;
    let diff: i32 = uv - TS_V25_UV;
    let steps: i32 = if diff >= 0 {
        diff / TS_UV_PER_CENTIDEGREE
    } else {
        -((-diff) / TS_UV_PER_CENTIDEGREE)
    };
    TS_REFERENCE_CENTIDEGREES - steps
}

/// The sensor ADC code that a temperature of `cc` centidegrees is sent as.
pub fn ts_centidegrees_to_raw(cc: i32) -> (r: u16)
    ensures
        r == ts_code(cc as int),
{
    let span: i64 = TS_REFERENCE_CENTIDEGREES as i64 - cc as i64;
    assert(-0x1_0000_0000 * 42 <= span * 42 <= 0x1_0000_0000 * 42) by (nonlinear_arith)
        requires
            -0x1_0000_0000 <= span <= 0x1_0000_0000,
    ;
    let uv: i64 = TS_V25_UV as i64 + span * TS_UV_PER_CENTIDEGREE as i64;
    if uv <= 0 {
        return 0;
    }
    let d: i64 = TS_LSB_UV as i64;
    let q: i64 = (2 * uv + d) / (2 * d);
    if q > WIRE_MAX as i64 {
        WIRE_MAX
    } else {
        q as u16
    }
}

/// Code 0 stands for exactly the channel's offset, subtracted; for a
/// channel without offset that is zero.
pub proof fn lemma_adc_zero_code(s: AdcScale)
    ensures
        adc_value(s, 0) == -s.offset,
        s.offset == 0 ==> adc_value(s, 0) == 0,
{
}

/// The physical value of any code fits a signed 64-bit integer.
pub proof fn lemma_adc_value_bounds(s: AdcScale, code: u16)
    ensures
        -0xFFFF_FFFF <= adc_value(s, code) <= 0xFFFF * 0xFFFF_FFFF,
{
    assert(0 <= code * s.lsb <= 0xFFFF * 0xFFFF_FFFF) by (nonlinear_arith)
        requires
            0 <= code <= 0xFFFF,
            0 <= s.lsb <= 0xFFFF_FFFF,
    ;
}

/// The temperature of any sensor code fits a signed 32-bit integer.
pub proof fn lemma_ts_bounds(raw: u16)
    ensures
        -1_000_000 <= ts_centidegrees(raw) <= 1_000_000,
{
}

/// Every ADC code survives conversion to its physical value and back.
pub proof fn lemma_adc_round_trip(s: AdcScale, code: u16)
    requires
        s.wf(),
    ensures
        adc_code(s, adc_value(s, code)) == code,
{
    let d = s.lsb as int;
    let n = adc_value(s, code) + s.offset;
    assert(n == code * d);
    if code > 0 {
        assert(n > 0) by (nonlinear_arith)
            requires
                n == code * d,
                code > 0,
                d > 0,
        ;
        assert(round_div(n, d) == code) by (nonlinear_arith)
            requires
                n == code * d,
                d > 0,
        {
            assert(2 * n + d == code * (2 * d) + d);
        }
    }
}

/// A sensor at the 25 degree reference voltage reads exactly 25.00 degrees,
/// and so does any code whose voltage lies within one centidegree step of it.
pub proof fn lemma_ts_reference(raw: u16)
    ensures
        centidegrees_of_microvolts(TS_V25_UV as int) == TS_REFERENCE_CENTIDEGREES,
        -TS_UV_PER_CENTIDEGREE < raw * TS_LSB_UV - TS_V25_UV < TS_UV_PER_CENTIDEGREE ==> ts_centidegrees(raw)
            == TS_REFERENCE_CENTIDEGREES,
{
}

/// Every sensor code survives conversion to centidegrees and back.
pub proof fn lemma_ts_round_trip(raw: u16)
    ensures
        ts_code(ts_centidegrees(raw)) == raw,
{
    let uv = raw * TS_LSB_UV;
    let diff = uv - TS_V25_UV;
    let q = trunc_div(diff, 42);
    let rem = diff - q * 42;
    assert(-42 < rem < 42) by {
        if diff >= 0 {
            assert(0 <= diff - (diff / 42) * 42 < 42) by (nonlinear_arith)
                requires
                    diff >= 0,
            ;
        } else {
            assert(0 <= (-diff) - ((-diff) / 42) * 42 < 42) by (nonlinear_arith)
                requires
                    diff < 0,
            ;
        }
    }
    let back = TS_V25_UV + (TS_REFERENCE_CENTIDEGREES - ts_centidegrees(raw)) * 42;
    assert(back == uv - rem);
    assert(back > 0);
    assert(round_div(back, 382) == raw) by (nonlinear_arith)
        requires
            back == raw * 382 - rem,
            -42 < rem < 42,
    {
        assert(2 * back + 382 == raw * 764 + (382 - 2 * rem));
        assert(0 <= 382 - 2 * rem < 764);
    }
}

} // verus!
