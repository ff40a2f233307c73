//! The wire format: the fixed-size big-endian measurement record and the
//! tagged frame that carries it over the interrupt endpoints.
use vstd::prelude::*;

verus! {

/// Length in bytes of the measurement record.
pub const PAYLOAD_LEN: usize = 68;

/// Frame tag of the subscribe command.
pub const TAG_SUBSCRIBE: u8 = 0x00;
/// Frame tag of the unsubscribe command.
pub const TAG_UNSUBSCRIBE: u8 = 0x01;
/// Frame tag of a status response.
pub const TAG_STATUS_RESPONSE: u8 = 0x80;
/// Frame tag of an unsolicited status push.
pub const TAG_STATUS_PUSH: u8 = 0xC0;

/// The raw measurement record, field for field as the device lays it out.
#[derive(Clone, Copy, Debug, PartialEq, Eq, Structural)]
pub struct HostSideUsbPayload {
    /// Charger VBAT ADC code.
    pub bq25730_adc_vbat_raw: u16,
    /// Charger VSYS ADC code.
    pub bq25730_adc_vsys_raw: u16,
    /// Charger ICHG ADC code.
    pub bq25730_adc_ichg_raw: u16,
    /// Charger IDCHG ADC code.
    pub bq25730_adc_idchg_raw: u16,
    /// Charger IIN ADC code.
    pub bq25730_adc_iin_raw: u16,
    /// Charger PSYS ADC code.
    pub bq25730_adc_psys_raw: u16,
    /// Charger VBUS ADC code.
    pub bq25730_adc_vbus_raw: u16,
    /// Charger CMPIN ADC code.
    pub bq25730_adc_cmpin_raw: u16,
    /// Cell 1 voltage in millivolts.
    pub bq76920_cell1_mv: i32,
    /// Cell 2 voltage in millivolts.
    pub bq76920_cell2_mv: i32,
    /// Cell 3 voltage in millivolts.
    pub bq76920_cell3_mv: i32,
    /// Cell 4 voltage in millivolts.
    pub bq76920_cell4_mv: i32,
    /// Cell 5 voltage in millivolts.
    pub bq76920_cell5_mv: i32,
    /// TS1 sensor ADC code.
    pub bq76920_ts1_raw_adc: u16,
    /// Non-zero when the TS2 sensor is fitted.
    pub bq76920_ts2_present: u8,
    /// TS2 sensor ADC code.
    pub bq76920_ts2_raw_adc: u16,
    /// Non-zero when the TS3 sensor is fitted.
    pub bq76920_ts3_present: u8,
    /// TS3 sensor ADC code.
    pub bq76920_ts3_raw_adc: u16,
    /// Non-zero when the sensors are external thermistors.
    pub bq76920_is_thermistor: u8,
    /// Coulomb counter current in milliamps.
    pub bq76920_current_ma: i32,
    /// Battery monitor system status register.
    pub bq76920_system_status_bits: u8,
    /// MOS switch status code.
    pub bq76920_mos_status_bits: u8,
    /// Power monitor bus voltage in volts, as the bits of an IEEE 754 single.
    pub ina226_voltage_bits: u32,
    /// Power monitor current in amps, as the bits of an IEEE 754 single.
    pub ina226_current_bits: u32,
    /// Power monitor power in watts, as the bits of an IEEE 754 single.
    pub ina226_power_bits: u32,
    /// Charger status byte (high) and fault byte (low).
    pub bq25730_charger_status_raw_u16: u16,
    /// Prochot status word: high byte, low byte, width in bits 13:12.
    pub bq25730_prochot_status_raw_u16: u16,
    /// Second sample of the system status register, reported as an alert.
    pub bq76920_alerts_system_status_bits: u8,
}

/// Why a byte string is not a frame.
#[derive(Clone, Copy, Debug, PartialEq, Eq, Structural)]
pub enum FrameError {
    /// The bytes end before the frame does.
    Truncated,
    /// The first byte is none of the four frame tags.
    UnknownDiscriminant(u8),
}

/// A frame: a one-byte tag, followed by a record for the two status tags.
#[derive(Clone, Copy, Debug, PartialEq, Eq, Structural)]
pub enum UsbData {
    SubscribeStatus,
    UnsubscribeStatus,
    StatusResponse(HostSideUsbPayload),
    StatusPush(HostSideUsbPayload),
}

/// Big-endian bytes of a 16-bit value.
pub open spec fn be16_bytes(x: u16) -> Seq<u8> {
    seq![(x / 256) as u8, (x % 256) as u8]
}

/// Big-endian bytes of a 32-bit value.
pub open spec fn be32_bytes(x: u32) -> Seq<u8> {
    seq![(x / 0x100_0000) as u8, ((x / 0x1_0000) % 256) as u8, ((x / 256) % 256) as u8, (x % 256) as u8]
}

/// Two's complement bits of a signed 32-bit value.
pub open spec fn i32_bits(x: i32) -> u32 {
    if x >= 0 {
        x as u32
    } else {
        (x + 0x1_0000_0000) as u32
    }
}

/// The big-endian 16-bit value at `at`.
pub open spec fn be16_at(b: Seq<u8>, at: int) -> int {
    b[at] * 256 + b[at + 1]
}

/// The big-endian 32-bit value at `at`.
pub open spec fn be32_at(b: Seq<u8>, at: int) -> int {
    ((b[at] * 256 + b[at + 1]) * 256 + b[at + 2]) * 256 + b[at + 3]
}

/// The big-endian two's complement 32-bit value at `at`.
pub open spec fn i32_at(b: Seq<u8>, at: int) -> int {
    if be32_at(b, at) < 0x8000_0000 {
        be32_at(b, at)
    } else {
        be32_at(b, at) - 0x1_0000_0000
    }
}

/// The bytes that a record is sent as.
pub open spec fn payload_bytes(p: HostSideUsbPayload) -> Seq<u8> {
    Seq::empty()
    + be16_bytes(p.bq25730_adc_vbat_raw)
    + be16_bytes(p.bq25730_adc_vsys_raw)
    + be16_bytes(p.bq25730_adc_ichg_raw)
    + be16_bytes(p.bq25730_adc_idchg_raw)
    + be16_bytes(p.bq25730_adc_iin_raw)
    + be16_bytes(p.bq25730_adc_psys_raw)
    + be16_bytes(p.bq25730_adc_vbus_raw)
    + be16_bytes(p.bq25730_adc_cmpin_raw)
    + be32_bytes(i32_bits(p.bq76920_cell1_mv))
    + be32_bytes(i32_bits(p.bq76920_cell2_mv))
    + be32_bytes(i32_bits(p.bq76920_cell3_mv))
    + be32_bytes(i32_bits(p.bq76920_cell4_mv))
    + be32_bytes(i32_bits(p.bq76920_cell5_mv))
    + be16_bytes(p.bq76920_ts1_raw_adc)
    + seq![p.bq76920_ts2_present]
    + be16_bytes(p.bq76920_ts2_raw_adc)
    + seq![p.bq76920_ts3_present]
    + be16_bytes(p.bq76920_ts3_raw_adc)
    + seq![p.bq76920_is_thermistor]
    + be32_bytes(i32_bits(p.bq76920_current_ma))
    + seq![p.bq76920_system_status_bits]
    + seq![p.bq76920_mos_status_bits]
    + be32_bytes(p.ina226_voltage_bits)
    + be32_bytes(p.ina226_current_bits)
    + be32_bytes(p.ina226_power_bits)
    + be16_bytes(p.bq25730_charger_status_raw_u16)
    + be16_bytes(p.bq25730_prochot_status_raw_u16)
    + seq![p.bq76920_alerts_system_status_bits]
}

/// The record read from the fixed field offsets of `b`.
pub open spec fn payload_of(b: Seq<u8>) -> HostSideUsbPayload {
    HostSideUsbPayload {
        bq25730_adc_vbat_raw: be16_at(b, 0) as u16,
        bq25730_adc_vsys_raw: be16_at(b, 2) as u16,
        bq25730_adc_ichg_raw: be16_at(b, 4) as u16,
        bq25730_adc_idchg_raw: be16_at(b, 6) as u16,
        bq25730_adc_iin_raw: be16_at(b, 8) as u16,
        bq25730_adc_psys_raw: be16_at(b, 10) as u16,
        bq25730_adc_vbus_raw: be16_at(b, 12) as u16,
        bq25730_adc_cmpin_raw: be16_at(b, 14) as u16,
        bq76920_cell1_mv: i32_at(b, 16) as i32,
        bq76920_cell2_mv: i32_at(b, 20) as i32,
        bq76920_cell3_mv: i32_at(b, 24) as i32,
        bq76920_cell4_mv: i32_at(b, 28) as i32,
        bq76920_cell5_mv: i32_at(b, 32) as i32,
        bq76920_ts1_raw_adc: be16_at(b, 36) as u16,
        bq76920_ts2_present: b[38] as u8,
        bq76920_ts2_raw_adc: be16_at(b, 39) as u16,
        bq76920_ts3_present: b[41] as u8,
        bq76920_ts3_raw_adc: be16_at(b, 42) as u16,
        bq76920_is_thermistor: b[44] as u8,
        bq76920_current_ma: i32_at(b, 45) as i32,
        bq76920_system_status_bits: b[49] as u8,
        bq76920_mos_status_bits: b[50] as u8,
        ina226_voltage_bits: be32_at(b, 51) as u32,
        ina226_current_bits: be32_at(b, 55) as u32,
        ina226_power_bits: be32_at(b, 59) as u32,
        bq25730_charger_status_raw_u16: be16_at(b, 63) as u16,
        bq25730_prochot_status_raw_u16: be16_at(b, 65) as u16,
        bq76920_alerts_system_status_bits: b[67] as u8,
    }
}

/// The bytes that a frame is sent as.
pub open spec fn frame_bytes(d: UsbData) -> Seq<u8> {
    match d {
        UsbData::SubscribeStatus => seq![TAG_SUBSCRIBE],
        UsbData::UnsubscribeStatus => seq![TAG_UNSUBSCRIBE],
        UsbData::StatusResponse(p) => seq![TAG_STATUS_RESPONSE] + payload_bytes(p),
        UsbData::StatusPush(p) => seq![TAG_STATUS_PUSH] + payload_bytes(p),
    }
}

/// Whether `t` is one of the four frame tags.
pub open spec fn is_known_tag(t: u8) -> bool {
    t == TAG_SUBSCRIBE || t == TAG_UNSUBSCRIBE || t == TAG_STATUS_RESPONSE || t == TAG_STATUS_PUSH
}

/// Whether a frame with tag `t` carries a record.
pub open spec fn tag_has_payload(t: u8) -> bool {
    t == TAG_STATUS_RESPONSE || t == TAG_STATUS_PUSH
}

/// The outcome of decoding `b` as a frame.
pub open spec fn frame_of(b: Seq<u8>) -> Result<UsbData, FrameError> {
    if b.len() == 0 {
        Err(FrameError::Truncated)
    } else if b[0] == TAG_SUBSCRIBE {
        Ok(UsbData::SubscribeStatus)
    } else if b[0] == TAG_UNSUBSCRIBE {
        Ok(UsbData::UnsubscribeStatus)
    } else if !tag_has_payload(b[0]) {
        Err(FrameError::UnknownDiscriminant(b[0]))
    } else if b.len() < 1 + PAYLOAD_LEN {
        Err(FrameError::Truncated)
    } else if b[0] == TAG_STATUS_RESPONSE {
        Ok(UsbData::StatusResponse(payload_of(b.subrange(1, b.len() as int))))
    } else {
        Ok(UsbData::StatusPush(payload_of(b.subrange(1, b.len() as int))))
    }
}

proof fn lemma_be16(hi: u8, lo: u8)
    ensures
        ((hi * 256 + lo) / 256) as u8 == hi,
        ((hi * 256 + lo) % 256) as u8 == lo,
{
}

proof fn lemma_be32(b0: u8, b1: u8, b2: u8, b3: u8)
    ensures
        ({
            let x = ((b0 * 256 + b1) * 256 + b2) * 256 + b3;
            &&& (x / 0x100_0000) as u8 == b0
            &&& ((x / 0x1_0000) % 256) as u8 == b1
            &&& ((x / 256) % 256) as u8 == b2
            &&& (x % 256) as u8 == b3
        }),
{
    let x = ((b0 * 256 + b1) * 256 + b2) * 256 + b3;
    assert(x / 0x100_0000 == b0) by (nonlinear_arith)
        requires x == ((b0 * 256 + b1) * 256 + b2) * 256 + b3, 0 <= b1 < 256, 0 <= b2 < 256, 0 <= b3 < 256;
    assert(x / 0x1_0000 == b0 * 256 + b1) by (nonlinear_arith)
        requires x == ((b0 * 256 + b1) * 256 + b2) * 256 + b3, 0 <= b2 < 256, 0 <= b3 < 256;
    assert(x / 256 == (b0 * 256 + b1) * 256 + b2) by (nonlinear_arith)
        requires x == ((b0 * 256 + b1) * 256 + b2) * 256 + b3, 0 <= b3 < 256;
    assert((b0 * 256 + b1) % 256 == b1) by (nonlinear_arith)
        requires 0 <= b1 < 256, 0 <= b0;
    assert(((b0 * 256 + b1) * 256 + b2) % 256 == b2) by (nonlinear_arith)
        requires 0 <= b2 < 256, 0 <= b0, 0 <= b1;
}

fn read_u8(b: &[u8], pos: &mut usize) -> (r: u8)
    requires
        *old(pos) + 1 <= b@.len(),
    ensures
        *final(pos) == *old(pos) + 1,
        r == b@[*old(pos) as int],
{
    let r = b[*pos];
    *pos = *pos + 1;
    r
}

fn read_u16(b: &[u8], pos: &mut usize) -> (r: u16)
    requires
        *old(pos) + 2 <= b@.len(),
    ensures
        *final(pos) == *old(pos) + 2,
        r as int == be16_at(b@, *old(pos) as int),
{
    let p = *pos;
    let hi = b[p];
    let lo = b[p + 1];
    let r: u16 = hi as u16 * 256 + lo as u16;
    *pos = p + 2;
    r
}

fn read_u32(b: &[u8], pos: &mut usize) -> (r: u32)
    requires
        *old(pos) + 4 <= b@.len(),
    ensures
        *final(pos) == *old(pos) + 4,
        r as int == be32_at(b@, *old(pos) as int),
{
    let p = *pos;
    let b0 = b[p];
    let b1 = b[p + 1];
    let b2 = b[p + 2];
    let b3 = b[p + 3];
    let r: u32 = ((b0 as u32 * 256 + b1 as u32) * 256 + b2 as u32) * 256 + b3 as u32;
    *pos = p + 4;
    r
}

fn read_i32(b: &[u8], pos: &mut usize) -> (r: i32)
    requires
        *old(pos) + 4 <= b@.len(),
    ensures
        *final(pos) == *old(pos) + 4,
        r as int == i32_at(b@, *old(pos) as int),
{
    let u = read_u32(b, pos);
    if u < 0x8000_0000 {
        u as i32
    } else {
        (u as i64 - 0x1_0000_0000i64) as i32
    }
}

fn push_u8(v: &mut Vec<u8>, x: u8)
    ensures
        final(v)@ == old(v)@ + seq![x],
{
    v.push(x);
    assert(v@ =~= old(v)@ + seq![x]);
}

fn push_u16(v: &mut Vec<u8>, x: u16)
    ensures
        final(v)@ == old(v)@ + be16_bytes(x),
{
    v.push((x / 256) as u8);
    v.push((x % 256) as u8);
    assert(v@ =~= old(v)@ + be16_bytes(x));
}

fn push_u32(v: &mut Vec<u8>, x: u32)
    ensures
        final(v)@ == old(v)@ + be32_bytes(x),
{
    v.push((x / 0x100_0000) as u8);
    v.push(((x / 0x1_0000) % 256) as u8);
    v.push(((x / 256) % 256) as u8);
    v.push((x % 256) as u8);
    assert(v@ =~= old(v)@ + be32_bytes(x));
}

fn push_i32(v: &mut Vec<u8>, x: i32)
    ensures
        final(v)@ == old(v)@ + be32_bytes(i32_bits(x)),
{
    let u: u32 = if x >= 0 {
        x as u32
    } else {
        (x as i64 + 0x1_0000_0000i64) as u32
    };
    push_u32(v, u);
}

proof fn lemma_be16_inverse(x: u16)
    ensures
        (x / 256) as u8 * 256 + (x % 256) as u8 == x,
{
}

proof fn lemma_be32_inverse(x: u32)
    ensures
        (((x / 0x100_0000) as u8 * 256 + ((x / 0x1_0000) % 256) as u8) * 256 + ((x / 256) % 256) as u8)
            * 256 + (x % 256) as u8 == x,
{
    assert((((x / 0x100_0000) * 256 + (x / 0x1_0000) % 256) * 256 + (x / 256) % 256) * 256 + x % 256 == x)
        by (nonlinear_arith);
}

impl HostSideUsbPayload {
    /// The record's bytes.
    pub fn encode(&self) -> (r: Vec<u8>)
        ensures
            r@ == payload_bytes(*self),
    {
        let mut out: Vec<u8> = Vec::new();
        push_u16(&mut out, self.bq25730_adc_vbat_raw);
        push_u16(&mut out, self.bq25730_adc_vsys_raw);
        push_u16(&mut out, self.bq25730_adc_ichg_raw);
        push_u16(&mut out, self.bq25730_adc_idchg_raw);
        push_u16(&mut out, self.bq25730_adc_iin_raw);
        push_u16(&mut out, self.bq25730_adc_psys_raw);
        push_u16(&mut out, self.bq25730_adc_vbus_raw);
        push_u16(&mut out, self.bq25730_adc_cmpin_raw);
        push_i32(&mut out, self.bq76920_cell1_mv);
        push_i32(&mut out, self.bq76920_cell2_mv);
        push_i32(&mut out, self.bq76920_cell3_mv);
        push_i32(&mut out, self.bq76920_cell4_mv);
        push_i32(&mut out, self.bq76920_cell5_mv);
        push_u16(&mut out, self.bq76920_ts1_raw_adc);
        push_u8(&mut out, self.bq76920_ts2_present);
        push_u16(&mut out, self.bq76920_ts2_raw_adc);
        push_u8(&mut out, self.bq76920_ts3_present);
        push_u16(&mut out, self.bq76920_ts3_raw_adc);
        push_u8(&mut out, self.bq76920_is_thermistor);
        push_i32(&mut out, self.bq76920_current_ma);
        push_u8(&mut out, self.bq76920_system_status_bits);
        push_u8(&mut out, self.bq76920_mos_status_bits);
        push_u32(&mut out, self.ina226_voltage_bits);
        push_u32(&mut out, self.ina226_current_bits);
        push_u32(&mut out, self.ina226_power_bits);
        push_u16(&mut out, self.bq25730_charger_status_raw_u16);
        push_u16(&mut out, self.bq25730_prochot_status_raw_u16);
        push_u8(&mut out, self.bq76920_alerts_system_status_bits);
        out
    }

    /// Reads a record from the start of `b`; bytes past the record are ignored.
    pub fn decode(b: &[u8]) -> (r: Result<HostSideUsbPayload, FrameError>)
        ensures
            b@.len() >= PAYLOAD_LEN ==> r == Ok::<HostSideUsbPayload, FrameError>(payload_of(b@)),
            b@.len() < PAYLOAD_LEN ==> r == Err::<HostSideUsbPayload, FrameError>(FrameError::Truncated),
    {
        if b.len() < PAYLOAD_LEN {
            return Err(FrameError::Truncated);
        }
        let mut pos: usize = 0;
        let bq25730_adc_vbat_raw = read_u16(b, &mut pos);
        let bq25730_adc_vsys_raw = read_u16(b, &mut pos);
        let bq25730_adc_ichg_raw = read_u16(b, &mut pos);
        let bq25730_adc_idchg_raw = read_u16(b, &mut pos);
        let bq25730_adc_iin_raw = read_u16(b, &mut pos);
        let bq25730_adc_psys_raw = read_u16(b, &mut pos);
        let bq25730_adc_vbus_raw = read_u16(b, &mut pos);
        let bq25730_adc_cmpin_raw = read_u16(b, &mut pos);
        let bq76920_cell1_mv = read_i32(b, &mut pos);
        let bq76920_cell2_mv = read_i32(b, &mut pos);
        let bq76920_cell3_mv = read_i32(b, &mut pos);
        let bq76920_cell4_mv = read_i32(b, &mut pos);
        let bq76920_cell5_mv = read_i32(b, &mut pos);
        let bq76920_ts1_raw_adc = read_u16(b, &mut pos);
        let bq76920_ts2_present = read_u8(b, &mut pos);
        let bq76920_ts2_raw_adc = read_u16(b, &mut pos);
        let bq76920_ts3_present = read_u8(b, &mut pos);
        let bq76920_ts3_raw_adc = read_u16(b, &mut pos);
        let bq76920_is_thermistor = read_u8(b, &mut pos);
        let bq76920_current_ma = read_i32(b, &mut pos);
        let bq76920_system_status_bits = read_u8(b, &mut pos);
        let bq76920_mos_status_bits = read_u8(b, &mut pos);
        let ina226_voltage_bits = read_u32(b, &mut pos);
        let ina226_current_bits = read_u32(b, &mut pos);
        let ina226_power_bits = read_u32(b, &mut pos);
        let bq25730_charger_status_raw_u16 = read_u16(b, &mut pos);
        let bq25730_prochot_status_raw_u16 = read_u16(b, &mut pos);
        let bq76920_alerts_system_status_bits = read_u8(b, &mut pos);
        Ok(HostSideUsbPayload {
            bq25730_adc_vbat_raw,
            bq25730_adc_vsys_raw,
            bq25730_adc_ichg_raw,
            bq25730_adc_idchg_raw,
            bq25730_adc_iin_raw,
            bq25730_adc_psys_raw,
            bq25730_adc_vbus_raw,
            bq25730_adc_cmpin_raw,
            bq76920_cell1_mv,
            bq76920_cell2_mv,
            bq76920_cell3_mv,
            bq76920_cell4_mv,
            bq76920_cell5_mv,
            bq76920_ts1_raw_adc,
            bq76920_ts2_present,
            bq76920_ts2_raw_adc,
            bq76920_ts3_present,
            bq76920_ts3_raw_adc,
            bq76920_is_thermistor,
            bq76920_current_ma,
            bq76920_system_status_bits,
            bq76920_mos_status_bits,
            ina226_voltage_bits,
            ina226_current_bits,
            ina226_power_bits,
            bq25730_charger_status_raw_u16,
            bq25730_prochot_status_raw_u16,
            bq76920_alerts_system_status_bits,
        })
    }
}

impl UsbData {
    /// The frame's bytes.
    pub fn encode(&self) -> (r: Vec<u8>)
        ensures
            r@ == frame_bytes(*self),
    {
        match self {
            UsbData::SubscribeStatus => {
                let r = vec![TAG_SUBSCRIBE];
                assert(r@ =~= seq![TAG_SUBSCRIBE]);
                r
            },
            UsbData::UnsubscribeStatus => {
                let r = vec![TAG_UNSUBSCRIBE];
                assert(r@ =~= seq![TAG_UNSUBSCRIBE]);
                r
            },
            UsbData::StatusResponse(p) => {
                let mut r = vec![TAG_STATUS_RESPONSE];
                let mut body = p.encode();
                r.append(&mut body);
                assert(r@ =~= seq![TAG_STATUS_RESPONSE] + payload_bytes(*p));
                r
            },
            UsbData::StatusPush(p) => {
                let mut r = vec![TAG_STATUS_PUSH];
                let mut body = p.encode();
                r.append(&mut body);
                assert(r@ =~= seq![TAG_STATUS_PUSH] + payload_bytes(*p));
                r
            },
        }
    }

    /// Decodes a frame from the start of `b`; bytes past the frame are ignored.
    pub fn decode(b: &[u8]) -> (r: Result<UsbData, FrameError>)
        ensures
            r == frame_of(b@),
    {
        if b.len() == 0 {
            return Err(FrameError::Truncated);
        }
        let tag = b[0];
        if tag == TAG_SUBSCRIBE {
            Ok(UsbData::SubscribeStatus)
        } else if tag == TAG_UNSUBSCRIBE {
            Ok(UsbData::UnsubscribeStatus)
        } else if tag != TAG_STATUS_RESPONSE && tag != TAG_STATUS_PUSH {
            Err(FrameError::UnknownDiscriminant(tag))
        } else {
            let rest = &b[1..b.len()];
            match HostSideUsbPayload::decode(rest) {
                Err(e) => Err(e),
                Ok(p) => {
                    if tag == TAG_STATUS_RESPONSE {
                        Ok(UsbData::StatusResponse(p))
                    } else {
                        Ok(UsbData::StatusPush(p))
                    }
                },
            }
        }
    }
}

/// Reading a record back from its bytes gives the record.
#[verifier::rlimit(100)]
#[verifier::spinoff_prover]
proof fn lemma_payload_of_bytes(p: HostSideUsbPayload)
    ensures
        payload_bytes(p).len() == PAYLOAD_LEN,
        payload_of(payload_bytes(p)) == p,
{
    let s = payload_bytes(p);
    let prefix_0 = Seq::<u8>::empty();
    let prefix_1 = prefix_0 + be16_bytes(p.bq25730_adc_vbat_raw);
    assert(prefix_1.len() == 2);
    let prefix_2 = prefix_1 + be16_bytes(p.bq25730_adc_vsys_raw);
    assert(prefix_2.len() == 4);
    let prefix_3 = prefix_2 + be16_bytes(p.bq25730_adc_ichg_raw);
    assert(prefix_3.len() == 6);
    let prefix_4 = prefix_3 + be16_bytes(p.bq25730_adc_idchg_raw);
    assert(prefix_4.len() == 8);
    let prefix_5 = prefix_4 + be16_bytes(p.bq25730_adc_iin_raw);
    assert(prefix_5.len() == 10);
    let prefix_6 = prefix_5 + be16_bytes(p.bq25730_adc_psys_raw);
    assert(prefix_6.len() == 12);
    let prefix_7 = prefix_6 + be16_bytes(p.bq25730_adc_vbus_raw);
    assert(prefix_7.len() == 14);
    let prefix_8 = prefix_7 + be16_bytes(p.bq25730_adc_cmpin_raw);
    assert(prefix_8.len() == 16);
    let prefix_9 = prefix_8 + be32_bytes(i32_bits(p.bq76920_cell1_mv));
    assert(prefix_9.len() == 20);
    let prefix_10 = prefix_9 + be32_bytes(i32_bits(p.bq76920_cell2_mv));
    assert(prefix_10.len() == 24);
    let prefix_11 = prefix_10 + be32_bytes(i32_bits(p.bq76920_cell3_mv));
    assert(prefix_11.len() == 28);
    let prefix_12 = prefix_11 + be32_bytes(i32_bits(p.bq76920_cell4_mv));
    assert(prefix_12.len() == 32);
    let prefix_13 = prefix_12 + be32_bytes(i32_bits(p.bq76920_cell5_mv));
    assert(prefix_13.len() == 36);
    let prefix_14 = prefix_13 + be16_bytes(p.bq76920_ts1_raw_adc);
    assert(prefix_14.len() == 38);
    let prefix_15 = prefix_14 + seq![p.bq76920_ts2_present];
    assert(prefix_15.len() == 39);
    let prefix_16 = prefix_15 + be16_bytes(p.bq76920_ts2_raw_adc);
    assert(prefix_16.len() == 41);
    let prefix_17 = prefix_16 + seq![p.bq76920_ts3_present];
    assert(prefix_17.len() == 42);
    let prefix_18 = prefix_17 + be16_bytes(p.bq76920_ts3_raw_adc);
    assert(prefix_18.len() == 44);
    let prefix_19 = prefix_18 + seq![p.bq76920_is_thermistor];
    assert(prefix_19.len() == 45);
    let prefix_20 = prefix_19 + be32_bytes(i32_bits(p.bq76920_current_ma));
    assert(prefix_20.len() == 49);
    let prefix_21 = prefix_20 + seq![p.bq76920_system_status_bits];
    assert(prefix_21.len() == 50);
    let prefix_22 = prefix_21 + seq![p.bq76920_mos_status_bits];
    assert(prefix_22.len() == 51);
    let prefix_23 = prefix_22 + be32_bytes(p.ina226_voltage_bits);
    assert(prefix_23.len() == 55);
    let prefix_24 = prefix_23 + be32_bytes(p.ina226_current_bits);
    assert(prefix_24.len() == 59);
    let prefix_25 = prefix_24 + be32_bytes(p.ina226_power_bits);
    assert(prefix_25.len() == 63);
    let prefix_26 = prefix_25 + be16_bytes(p.bq25730_charger_status_raw_u16);
    assert(prefix_26.len() == 65);
    let prefix_27 = prefix_26 + be16_bytes(p.bq25730_prochot_status_raw_u16);
    assert(prefix_27.len() == 67);
    let prefix_28 = prefix_27 + seq![p.bq76920_alerts_system_status_bits];
    assert(prefix_28.len() == 68);
    assert(s == prefix_28);
    assert(s[0] == be16_bytes(p.bq25730_adc_vbat_raw)[0]);
    assert(s[1] == be16_bytes(p.bq25730_adc_vbat_raw)[1]);
    lemma_be16_inverse(p.bq25730_adc_vbat_raw);
    assert(s[2] == be16_bytes(p.bq25730_adc_vsys_raw)[0]);
    assert(s[3] == be16_bytes(p.bq25730_adc_vsys_raw)[1]);
    lemma_be16_inverse(p.bq25730_adc_vsys_raw);
    assert(s[4] == be16_bytes(p.bq25730_adc_ichg_raw)[0]);
    assert(s[5] == be16_bytes(p.bq25730_adc_ichg_raw)[1]);
    lemma_be16_inverse(p.bq25730_adc_ichg_raw);
    assert(s[6] == be16_bytes(p.bq25730_adc_idchg_raw)[0]);
    assert(s[7] == be16_bytes(p.bq25730_adc_idchg_raw)[1]);
    lemma_be16_inverse(p.bq25730_adc_idchg_raw);
    assert(s[8] == be16_bytes(p.bq25730_adc_iin_raw)[0]);
    assert(s[9] == be16_bytes(p.bq25730_adc_iin_raw)[1]);
    lemma_be16_inverse(p.bq25730_adc_iin_raw);
    assert(s[10] == be16_bytes(p.bq25730_adc_psys_raw)[0]);
    assert(s[11] == be16_bytes(p.bq25730_adc_psys_raw)[1]);
    lemma_be16_inverse(p.bq25730_adc_psys_raw);
    assert(s[12] == be16_bytes(p.bq25730_adc_vbus_raw)[0]);
    assert(s[13] == be16_bytes(p.bq25730_adc_vbus_raw)[1]);
    lemma_be16_inverse(p.bq25730_adc_vbus_raw);
    assert(s[14] == be16_bytes(p.bq25730_adc_cmpin_raw)[0]);
    assert(s[15] == be16_bytes(p.bq25730_adc_cmpin_raw)[1]);
    lemma_be16_inverse(p.bq25730_adc_cmpin_raw);
    assert(s[16] == be32_bytes(i32_bits(p.bq76920_cell1_mv))[0]);
    assert(s[17] == be32_bytes(i32_bits(p.bq76920_cell1_mv))[1]);
    assert(s[18] == be32_bytes(i32_bits(p.bq76920_cell1_mv))[2]);
    assert(s[19] == be32_bytes(i32_bits(p.bq76920_cell1_mv))[3]);
    lemma_be32_inverse(i32_bits(p.bq76920_cell1_mv));
    assert(s[20] == be32_bytes(i32_bits(p.bq76920_cell2_mv))[0]);
    assert(s[21] == be32_bytes(i32_bits(p.bq76920_cell2_mv))[1]);
    assert(s[22] == be32_bytes(i32_bits(p.bq76920_cell2_mv))[2]);
    assert(s[23] == be32_bytes(i32_bits(p.bq76920_cell2_mv))[3]);
    lemma_be32_inverse(i32_bits(p.bq76920_cell2_mv));
    assert(s[24] == be32_bytes(i32_bits(p.bq76920_cell3_mv))[0]);
    assert(s[25] == be32_bytes(i32_bits(p.bq76920_cell3_mv))[1]);
    assert(s[26] == be32_bytes(i32_bits(p.bq76920_cell3_mv))[2]);
    assert(s[27] == be32_bytes(i32_bits(p.bq76920_cell3_mv))[3]);
    lemma_be32_inverse(i32_bits(p.bq76920_cell3_mv));
    assert(s[28] == be32_bytes(i32_bits(p.bq76920_cell4_mv))[0]);
    assert(s[29] == be32_bytes(i32_bits(p.bq76920_cell4_mv))[1]);
    assert(s[30] == be32_bytes(i32_bits(p.bq76920_cell4_mv))[2]);
    assert(s[31] == be32_bytes(i32_bits(p.bq76920_cell4_mv))[3]);
    lemma_be32_inverse(i32_bits(p.bq76920_cell4_mv));
    assert(s[32] == be32_bytes(i32_bits(p.bq76920_cell5_mv))[0]);
    assert(s[33] == be32_bytes(i32_bits(p.bq76920_cell5_mv))[1]);
    assert(s[34] == be32_bytes(i32_bits(p.bq76920_cell5_mv))[2]);
    assert(s[35] == be32_bytes(i32_bits(p.bq76920_cell5_mv))[3]);
    lemma_be32_inverse(i32_bits(p.bq76920_cell5_mv));
    assert(s[36] == be16_bytes(p.bq76920_ts1_raw_adc)[0]);
    assert(s[37] == be16_bytes(p.bq76920_ts1_raw_adc)[1]);
    lemma_be16_inverse(p.bq76920_ts1_raw_adc);
    assert(s[38] == seq![p.bq76920_ts2_present][0]);
    assert(s[39] == be16_bytes(p.bq76920_ts2_raw_adc)[0]);
    assert(s[40] == be16_bytes(p.bq76920_ts2_raw_adc)[1]);
    lemma_be16_inverse(p.bq76920_ts2_raw_adc);
    assert(s[41] == seq![p.bq76920_ts3_present][0]);
    assert(s[42] == be16_bytes(p.bq76920_ts3_raw_adc)[0]);
    assert(s[43] == be16_bytes(p.bq76920_ts3_raw_adc)[1]);
    lemma_be16_inverse(p.bq76920_ts3_raw_adc);
    assert(s[44] == seq![p.bq76920_is_thermistor][0]);
    assert(s[45] == be32_bytes(i32_bits(p.bq76920_current_ma))[0]);
    assert(s[46] == be32_bytes(i32_bits(p.bq76920_current_ma))[1]);
    assert(s[47] == be32_bytes(i32_bits(p.bq76920_current_ma))[2]);
    assert(s[48] == be32_bytes(i32_bits(p.bq76920_current_ma))[3]);
    lemma_be32_inverse(i32_bits(p.bq76920_current_ma));
    assert(s[49] == seq![p.bq76920_system_status_bits][0]);
    assert(s[50] == seq![p.bq76920_mos_status_bits][0]);
    assert(s[51] == be32_bytes(p.ina226_voltage_bits)[0]);
    assert(s[52] == be32_bytes(p.ina226_voltage_bits)[1]);
    assert(s[53] == be32_bytes(p.ina226_voltage_bits)[2]);
    assert(s[54] == be32_bytes(p.ina226_voltage_bits)[3]);
    lemma_be32_inverse(p.ina226_voltage_bits);
    assert(s[55] == be32_bytes(p.ina226_current_bits)[0]);
    assert(s[56] == be32_bytes(p.ina226_current_bits)[1]);
    assert(s[57] == be32_bytes(p.ina226_current_bits)[2]);
    assert(s[58] == be32_bytes(p.ina226_current_bits)[3]);
    lemma_be32_inverse(p.ina226_current_bits);
    assert(s[59] == be32_bytes(p.ina226_power_bits)[0]);
    assert(s[60] == be32_bytes(p.ina226_power_bits)[1]);
    assert(s[61] == be32_bytes(p.ina226_power_bits)[2]);
    assert(s[62] == be32_bytes(p.ina226_power_bits)[3]);
    lemma_be32_inverse(p.ina226_power_bits);
    assert(s[63] == be16_bytes(p.bq25730_charger_status_raw_u16)[0]);
    assert(s[64] == be16_bytes(p.bq25730_charger_status_raw_u16)[1]);
    lemma_be16_inverse(p.bq25730_charger_status_raw_u16);
    assert(s[65] == be16_bytes(p.bq25730_prochot_status_raw_u16)[0]);
    assert(s[66] == be16_bytes(p.bq25730_prochot_status_raw_u16)[1]);
    lemma_be16_inverse(p.bq25730_prochot_status_raw_u16);
    assert(s[67] == seq![p.bq76920_alerts_system_status_bits][0]);
}

/// The record read from `b` is sent as exactly the first record-length
/// bytes of `b`.
#[verifier::rlimit(100)]
#[verifier::spinoff_prover]
proof fn lemma_bytes_of_payload(b: Seq<u8>)
    requires
        b.len() >= PAYLOAD_LEN,
    ensures
        payload_bytes(payload_of(b)) == b.subrange(0, PAYLOAD_LEN as int),
{
    let q = payload_of(b);
    assert(b.subrange(0, 0) =~= Seq::<u8>::empty());
    lemma_be16(b[0], b[1]);
    assert(b.subrange(0, 2) =~= b.subrange(0, 0) + be16_bytes(q.bq25730_adc_vbat_raw));
    lemma_be16(b[2], b[3]);
    assert(b.subrange(0, 4) =~= b.subrange(0, 2) + be16_bytes(q.bq25730_adc_vsys_raw));
    lemma_be16(b[4], b[5]);
    assert(b.subrange(0, 6) =~= b.subrange(0, 4) + be16_bytes(q.bq25730_adc_ichg_raw));
    lemma_be16(b[6], b[7]);
    assert(b.subrange(0, 8) =~= b.subrange(0, 6) + be16_bytes(q.bq25730_adc_idchg_raw));
    lemma_be16(b[8], b[9]);
    assert(b.subrange(0, 10) =~= b.subrange(0, 8) + be16_bytes(q.bq25730_adc_iin_raw));
    lemma_be16(b[10], b[11]);
    assert(b.subrange(0, 12) =~= b.subrange(0, 10) + be16_bytes(q.bq25730_adc_psys_raw));
    lemma_be16(b[12], b[13]);
    assert(b.subrange(0, 14) =~= b.subrange(0, 12) + be16_bytes(q.bq25730_adc_vbus_raw));
    lemma_be16(b[14], b[15]);
    assert(b.subrange(0, 16) =~= b.subrange(0, 14) + be16_bytes(q.bq25730_adc_cmpin_raw));
    lemma_be32(b[16], b[17], b[18], b[19]);
    assert(b.subrange(0, 20) =~= b.subrange(0, 16) + be32_bytes(i32_bits(q.bq76920_cell1_mv)));
    lemma_be32(b[20], b[21], b[22], b[23]);
    assert(b.subrange(0, 24) =~= b.subrange(0, 20) + be32_bytes(i32_bits(q.bq76920_cell2_mv)));
    lemma_be32(b[24], b[25], b[26], b[27]);
    assert(b.subrange(0, 28) =~= b.subrange(0, 24) + be32_bytes(i32_bits(q.bq76920_cell3_mv)));
    lemma_be32(b[28], b[29], b[30], b[31]);
    assert(b.subrange(0, 32) =~= b.subrange(0, 28) + be32_bytes(i32_bits(q.bq76920_cell4_mv)));
    lemma_be32(b[32], b[33], b[34], b[35]);
    assert(b.subrange(0, 36) =~= b.subrange(0, 32) + be32_bytes(i32_bits(q.bq76920_cell5_mv)));
    lemma_be16(b[36], b[37]);
    assert(b.subrange(0, 38) =~= b.subrange(0, 36) + be16_bytes(q.bq76920_ts1_raw_adc));
    assert(b.subrange(0, 39) =~= b.subrange(0, 38) + seq![q.bq76920_ts2_present]);
    lemma_be16(b[39], b[40]);
    assert(b.subrange(0, 41) =~= b.subrange(0, 39) + be16_bytes(q.bq76920_ts2_raw_adc));
    assert(b.subrange(0, 42) =~= b.subrange(0, 41) + seq![q.bq76920_ts3_present]);
    lemma_be16(b[42], b[43]);
    assert(b.subrange(0, 44) =~= b.subrange(0, 42) + be16_bytes(q.bq76920_ts3_raw_adc));
    assert(b.subrange(0, 45) =~= b.subrange(0, 44) + seq![q.bq76920_is_thermistor]);
    lemma_be32(b[45], b[46], b[47], b[48]);
    assert(b.subrange(0, 49) =~= b.subrange(0, 45) + be32_bytes(i32_bits(q.bq76920_current_ma)));
    assert(b.subrange(0, 50) =~= b.subrange(0, 49) + seq![q.bq76920_system_status_bits]);
    assert(b.subrange(0, 51) =~= b.subrange(0, 50) + seq![q.bq76920_mos_status_bits]);
    lemma_be32(b[51], b[52], b[53], b[54]);
    assert(b.subrange(0, 55) =~= b.subrange(0, 51) + be32_bytes(q.ina226_voltage_bits));
    lemma_be32(b[55], b[56], b[57], b[58]);
    assert(b.subrange(0, 59) =~= b.subrange(0, 55) + be32_bytes(q.ina226_current_bits));
    lemma_be32(b[59], b[60], b[61], b[62]);
    assert(b.subrange(0, 63) =~= b.subrange(0, 59) + be32_bytes(q.ina226_power_bits));
    lemma_be16(b[63], b[64]);
    assert(b.subrange(0, 65) =~= b.subrange(0, 63) + be16_bytes(q.bq25730_charger_status_raw_u16));
    lemma_be16(b[65], b[66]);
    assert(b.subrange(0, 67) =~= b.subrange(0, 65) + be16_bytes(q.bq25730_prochot_status_raw_u16));
    assert(b.subrange(0, 68) =~= b.subrange(0, 67) + seq![q.bq76920_alerts_system_status_bits]);
}

/// Encoding a record and decoding the bytes gives the record back.
pub proof fn lemma_payload_round_trip(p: HostSideUsbPayload)
    ensures
        payload_bytes(p).len() == PAYLOAD_LEN,
        payload_of(payload_bytes(p)) == p,
{
    lemma_payload_of_bytes(p);
}

/// Decoding a record-length byte string and encoding the record gives the
/// same bytes back.
pub proof fn lemma_payload_bytes_round_trip(b: Seq<u8>)
    requires
        b.len() == PAYLOAD_LEN,
    ensures
        payload_bytes(payload_of(b)) == b,
{
    lemma_bytes_of_payload(b);
    assert(b.subrange(0, PAYLOAD_LEN as int) =~= b);
}

/// Encoding a frame and decoding the bytes gives the frame back.
pub proof fn lemma_frame_round_trip(d: UsbData)
    ensures
        frame_of(frame_bytes(d)) == Ok::<UsbData, FrameError>(d),
{
    match d {
        UsbData::StatusResponse(p) => {
            lemma_payload_of_bytes(p);
            let s = frame_bytes(d);
            assert(s.subrange(1, s.len() as int) =~= payload_bytes(p));
        },
        UsbData::StatusPush(p) => {
            lemma_payload_of_bytes(p);
            let s = frame_bytes(d);
            assert(s.subrange(1, s.len() as int) =~= payload_bytes(p));
        },
        _ => {},
    }
}

/// A byte string that decodes to a frame starts with that frame's bytes,
/// and is exactly those bytes when it has the frame's length.
pub proof fn lemma_frame_bytes_round_trip(b: Seq<u8>)
    requires
        frame_of(b) is Ok,
    ensures
        ({
            let d = frame_of(b)->Ok_0;
            &&& frame_bytes(d).len() <= b.len()
            &&& frame_bytes(d) == b.subrange(0, frame_bytes(d).len() as int)
            &&& b.len() == frame_bytes(d).len() ==> frame_bytes(d) == b
        }),
{
    let d = frame_of(b)->Ok_0;
    if tag_has_payload(b[0]) {
        let rest = b.subrange(1, b.len() as int);
        lemma_bytes_of_payload(rest);
        assert(rest.subrange(0, PAYLOAD_LEN as int) =~= b.subrange(1, 1 + PAYLOAD_LEN));
        assert(b.subrange(0, 1 + PAYLOAD_LEN) =~= seq![b[0]] + b.subrange(1, 1 + PAYLOAD_LEN));
    } else {
        assert(b.subrange(0, 1) =~= seq![b[0]]);
    }
    assert(b.len() == frame_bytes(d).len() ==> b.subrange(0, b.len() as int) =~= b);
}

/// A first byte outside the four frame tags is rejected, whatever follows.
pub proof fn lemma_unknown_tag_rejected(b: Seq<u8>)
    requires
        b.len() > 0,
        !is_known_tag(b[0]),
    ensures
        frame_of(b) == Err::<UsbData, FrameError>(FrameError::UnknownDiscriminant(b[0])),
{
}

} // verus!
