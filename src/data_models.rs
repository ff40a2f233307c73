//! The measurement and alert model built from one wire record, and the
//! record built back from a model.
use vstd::prelude::*;
use crate::codec::HostSideUsbPayload;
use crate::flags::{
    ChargerFaultFlags, ChargerStatusFlags, MosStatus, ProchotLsbFlags, ProchotMsbFlags,
    SystemStatus, lemma_mos_status_total, mos_code_of, mos_status_of,
};
use crate::units::{
    AdcScale, adc_code, adc_value, lemma_adc_round_trip, lemma_adc_value_bounds, lemma_ts_bounds,
    lemma_ts_round_trip, ts_centidegrees,
    ts_centidegrees_to_raw, ts_code, ts_raw_to_centidegrees,
};

verus! {

/// Number of battery cells that the wire record carries.
pub const WIRE_CELLS: usize = 5;

/// Charger readings, in milli-units: mW for `psys`, mV for the voltages,
/// mA for the currents.
#[derive(Clone, Copy, Debug, PartialEq, Eq, Structural)]
pub struct Bq25730Measurements {
    pub psys: i64,
    pub vbus: i64,
    pub idchg: i64,
    pub ichg: i64,
    pub cmpin: i64,
    pub iin: i64,
    pub vbat: i64,
    pub vsys: i64,
}

/// The scale of each charger ADC channel.
#[derive(Clone, Copy, Debug, PartialEq, Eq, Structural)]
pub struct ChargerCalibration {
    pub vbat: AdcScale,
    pub vsys: AdcScale,
    pub ichg: AdcScale,
    pub idchg: AdcScale,
    pub iin: AdcScale,
    pub psys: AdcScale,
    pub vbus: AdcScale,
    pub cmpin: AdcScale,
}

/// Temperatures in centidegrees Celsius; an absent sensor is `None`.
#[derive(Clone, Copy, Debug, PartialEq, Eq, Structural)]
pub struct Temperatures {
    pub ts1: i32,
    pub ts2: Option<i32>,
    pub ts3: Option<i32>,
    pub is_thermistor: bool,
}

/// Battery monitor readings: cell voltages in mV (cells past those on the
/// wire read zero), coulomb counter current in mA.
#[derive(Clone, Copy, Debug, PartialEq, Eq)]
pub struct Bq76920Measurements<const N: usize> {
    pub cell_voltages: [i32; N],
    pub temperatures: Temperatures,
    pub coulomb_counter: i32,
    pub system_status: SystemStatus,
    pub mos_status: MosStatus,
}

/// Power monitor readings as the bits of IEEE 754 singles: volts, amps, watts.
#[derive(Clone, Copy, Debug, PartialEq, Eq, Structural)]
pub struct Ina226Measurements {
    pub voltage: u32,
    pub current: u32,
    pub power: u32,
}

/// Charger status, fault and prochot registers.
#[derive(Clone, Copy, Debug, PartialEq, Eq, Structural, Default)]
pub struct Bq25730Alerts {
    pub charger_status_flags: ChargerStatusFlags,
    pub charger_fault_flags: ChargerFaultFlags,
    pub prochot_lsb_flags: ProchotLsbFlags,
    pub prochot_msb_flags: ProchotMsbFlags,
    /// Prochot pulse width, bits 13:12 of the prochot status word.
    pub prochot_width: u8,
}

/// The battery monitor's own alert sample of its system status register.
#[derive(Clone, Copy, Debug, PartialEq, Eq, Structural, Default)]
pub struct Bq76920Alerts {
    pub system_status: SystemStatus,
}

/// One snapshot of the whole device.
#[derive(Clone, Copy, Debug, PartialEq, Eq)]
pub struct AllMeasurements<const N: usize> {
    pub bq25730: Bq25730Measurements,
    pub bq76920: Bq76920Measurements<N>,
    pub ina226: Ina226Measurements,
    pub bq25730_alerts: Bq25730Alerts,
    pub bq76920_alerts: Bq76920Alerts,
}

/// Charger readings for the codes of `p`.
pub open spec fn charger_of(p: HostSideUsbPayload, c: ChargerCalibration) -> Bq25730Measurements {
    Bq25730Measurements {
        psys: adc_value(c.psys, p.bq25730_adc_psys_raw) as i64,
        vbus: adc_value(c.vbus, p.bq25730_adc_vbus_raw) as i64,
        idchg: adc_value(c.idchg, p.bq25730_adc_idchg_raw) as i64,
        ichg: adc_value(c.ichg, p.bq25730_adc_ichg_raw) as i64,
        cmpin: adc_value(c.cmpin, p.bq25730_adc_cmpin_raw) as i64,
        iin: adc_value(c.iin, p.bq25730_adc_iin_raw) as i64,
        vbat: adc_value(c.vbat, p.bq25730_adc_vbat_raw) as i64,
        vsys: adc_value(c.vsys, p.bq25730_adc_vsys_raw) as i64,
    }
}

/// Temperatures for the sensor fields of `p`.
pub open spec fn temperatures_of(p: HostSideUsbPayload) -> Temperatures {
    Temperatures {
        ts1: ts_centidegrees(p.bq76920_ts1_raw_adc) as i32,
        ts2: if p.bq76920_ts2_present != 0 {
            Some(ts_centidegrees(p.bq76920_ts2_raw_adc) as i32)
        } else {
            None
        },
        ts3: if p.bq76920_ts3_present != 0 {
            Some(ts_centidegrees(p.bq76920_ts3_raw_adc) as i32)
        } else {
            None
        },
        is_thermistor: p.bq76920_is_thermistor != 0,
    }
}

/// Voltage of cell `i` (counting from zero) in `p`; zero past the wire's cells.
pub open spec fn cell_mv(p: HostSideUsbPayload, i: int) -> i32 {
    if i == 0 {
        p.bq76920_cell1_mv
    } else if i == 1 {
        p.bq76920_cell2_mv
    } else if i == 2 {
        p.bq76920_cell3_mv
    } else if i == 3 {
        p.bq76920_cell4_mv
    } else if i == 4 {
        p.bq76920_cell5_mv
    } else {
        0
    }
}

/// Power monitor readings of `p`.
pub open spec fn ina226_of(p: HostSideUsbPayload) -> Ina226Measurements {
    Ina226Measurements {
        voltage: p.ina226_voltage_bits,
        current: p.ina226_current_bits,
        power: p.ina226_power_bits,
    }
}

/// Whether `a` holds the registers of the charger status word `cs` and the
/// prochot status word `ph`, every bit kept.
pub open spec fn charger_alerts_decoded(a: Bq25730Alerts, cs: u16, ph: u16) -> bool {
    &&& a.charger_status_flags@ == (cs / 256) as u8
    &&& a.charger_fault_flags@ == (cs % 256) as u8
    &&& a.prochot_msb_flags@ == (ph / 256) as u8
    &&& a.prochot_lsb_flags@ == (ph % 256) as u8
    &&& a.prochot_width == ((ph / 4096) % 4) as u8
}

/// The charger status word that `a` is sent as.
pub open spec fn charger_status_word(a: Bq25730Alerts) -> u16 {
    (a.charger_status_flags@ * 256 + a.charger_fault_flags@) as u16
}

/// The high byte of the prochot status word: the high flags with the
/// width in bits 5:4.
pub open spec fn prochot_high_byte(a: Bq25730Alerts) -> u8 {
    a.prochot_msb_flags@ | (((a.prochot_width % 4) * 16) as u8)
}

/// The prochot status word that `a` is sent as.
pub open spec fn prochot_status_word(a: Bq25730Alerts) -> u16 {
    (prochot_high_byte(a) * 256 + a.prochot_lsb_flags@) as u16
}

/// Whether `g` is the battery monitor part of the record `p`.
pub open spec fn gauge_decoded<const N: usize>(g: Bq76920Measurements<N>, p: HostSideUsbPayload) -> bool {
    &&& forall|i: int| 0 <= i < N ==> #[trigger] g.cell_voltages@[i] == cell_mv(p, i)
    &&& g.temperatures == temperatures_of(p)
    &&& g.coulomb_counter == p.bq76920_current_ma
    &&& g.system_status@ == p.bq76920_system_status_bits
    &&& g.mos_status == mos_status_of(p.bq76920_mos_status_bits)
}

/// Whether `m` is the snapshot that the record `p` stands for.
pub open spec fn decoded_from<const N: usize>(
    m: AllMeasurements<N>,
    p: HostSideUsbPayload,
    c: ChargerCalibration,
) -> bool {
    &&& m.bq25730 == charger_of(p, c)
    &&& gauge_decoded(m.bq76920, p)
    &&& m.ina226 == ina226_of(p)
    &&& charger_alerts_decoded(
        m.bq25730_alerts,
        p.bq25730_charger_status_raw_u16,
        p.bq25730_prochot_status_raw_u16,
    )
    &&& m.bq76920_alerts.system_status@ == p.bq76920_alerts_system_status_bits
}

/// The snapshot that the record `p` stands for.
pub open spec fn measurements_of<const N: usize>(
    p: HostSideUsbPayload,
    c: ChargerCalibration,
) -> AllMeasurements<N> {
    choose|m: AllMeasurements<N>| decoded_from(m, p, c)
}

/// A record stands for at most one snapshot.
pub proof fn lemma_decoded_from_unique<const N: usize>(
    m1: AllMeasurements<N>,
    m2: AllMeasurements<N>,
    p: HostSideUsbPayload,
    c: ChargerCalibration,
)
    requires
        decoded_from(m1, p, c),
        decoded_from(m2, p, c),
    ensures
        m1 == m2,
{
    SystemStatus::lemma_view_injective(m1.bq76920.system_status, m2.bq76920.system_status);
    SystemStatus::lemma_view_injective(
        m1.bq76920_alerts.system_status,
        m2.bq76920_alerts.system_status,
    );
    let a1 = m1.bq25730_alerts;
    let a2 = m2.bq25730_alerts;
    ChargerStatusFlags::lemma_view_injective(a1.charger_status_flags, a2.charger_status_flags);
    ChargerFaultFlags::lemma_view_injective(a1.charger_fault_flags, a2.charger_fault_flags);
    ProchotLsbFlags::lemma_view_injective(a1.prochot_lsb_flags, a2.prochot_lsb_flags);
    ProchotMsbFlags::lemma_view_injective(a1.prochot_msb_flags, a2.prochot_msb_flags);
    assert(m1.bq76920.cell_voltages =~= m2.bq76920.cell_voltages);
}

/// The code that an optional temperature is sent as; zero when absent.
pub open spec fn optional_ts_code(t: Option<i32>) -> u16 {
    match t {
        Some(cc) => ts_code(cc as int),
        None => 0,
    }
}

/// The record that the snapshot `m` is sent as.
pub open spec fn payload_of_measurements<const N: usize>(
    m: AllMeasurements<N>,
    c: ChargerCalibration,
) -> HostSideUsbPayload {
    let cells = m.bq76920.cell_voltages@;
    let t = m.bq76920.temperatures;
    HostSideUsbPayload {
        bq25730_adc_vbat_raw: adc_code(c.vbat, m.bq25730.vbat as int),
        bq25730_adc_vsys_raw: adc_code(c.vsys, m.bq25730.vsys as int),
        bq25730_adc_ichg_raw: adc_code(c.ichg, m.bq25730.ichg as int),
        bq25730_adc_idchg_raw: adc_code(c.idchg, m.bq25730.idchg as int),
        bq25730_adc_iin_raw: adc_code(c.iin, m.bq25730.iin as int),
        bq25730_adc_psys_raw: adc_code(c.psys, m.bq25730.psys as int),
        bq25730_adc_vbus_raw: adc_code(c.vbus, m.bq25730.vbus as int),
        bq25730_adc_cmpin_raw: adc_code(c.cmpin, m.bq25730.cmpin as int),
        bq76920_cell1_mv: if N > 0 { cells[0] } else { 0 },
        bq76920_cell2_mv: if N > 1 { cells[1] } else { 0 },
        bq76920_cell3_mv: if N > 2 { cells[2] } else { 0 },
        bq76920_cell4_mv: if N > 3 { cells[3] } else { 0 },
        bq76920_cell5_mv: if N > 4 { cells[4] } else { 0 },
        bq76920_ts1_raw_adc: ts_code(t.ts1 as int),
        bq76920_ts2_present: if t.ts2 is Some { 1 } else { 0 },
        bq76920_ts2_raw_adc: optional_ts_code(t.ts2),
        bq76920_ts3_present: if t.ts3 is Some { 1 } else { 0 },
        bq76920_ts3_raw_adc: optional_ts_code(t.ts3),
        bq76920_is_thermistor: if t.is_thermistor { 1 } else { 0 },
        bq76920_current_ma: m.bq76920.coulomb_counter,
        bq76920_system_status_bits: m.bq76920.system_status@,
        bq76920_mos_status_bits: mos_code_of(m.bq76920.mos_status),
        ina226_voltage_bits: m.ina226.voltage,
        ina226_current_bits: m.ina226.current,
        ina226_power_bits: m.ina226.power,
        bq25730_charger_status_raw_u16: charger_status_word(m.bq25730_alerts),
        bq25730_prochot_status_raw_u16: prochot_status_word(m.bq25730_alerts),
        bq76920_alerts_system_status_bits: m.bq76920_alerts.system_status@,
    }
}

/// Whether `p` is written the way an encoder writes records: known MOS
/// code, presence and thermistor bytes of 0 or 1, absent sensors read 0.
pub open spec fn is_canonical_payload(p: HostSideUsbPayload) -> bool {
    &&& p.bq76920_mos_status_bits < 4
    &&& p.bq76920_ts2_present <= 1
    &&& p.bq76920_ts3_present <= 1
    &&& p.bq76920_ts2_present == 0 ==> p.bq76920_ts2_raw_adc == 0
    &&& p.bq76920_ts3_present == 0 ==> p.bq76920_ts3_raw_adc == 0
    &&& p.bq76920_is_thermistor <= 1
}

impl ChargerCalibration {
    pub open spec fn wf(&self) -> bool {
        &&& self.vbat.wf()
        &&& self.vsys.wf()
        &&& self.ichg.wf()
        &&& self.idchg.wf()
        &&& self.iin.wf()
        &&& self.psys.wf()
        &&& self.vbus.wf()
        &&& self.cmpin.wf()
    }

    /// The scales of the current firmware, which reports every channel but
    /// PSYS already in milli-units (VBAT and VSYS offset-corrected) and PSYS
    /// as a count of 1.28 W steps.
    pub fn firmware() -> (r: Self)
        ensures
            r.wf(),
            r.psys == (AdcScale { lsb: 1280, offset: 0 }),
            r.vbat == (AdcScale { lsb: 1, offset: 0 }),
            r.vsys == (AdcScale { lsb: 1, offset: 0 }),
            r.ichg == (AdcScale { lsb: 1, offset: 0 }),
            r.idchg == (AdcScale { lsb: 1, offset: 0 }),
            r.iin == (AdcScale { lsb: 1, offset: 0 }),
            r.vbus == (AdcScale { lsb: 1, offset: 0 }),
            r.cmpin == (AdcScale { lsb: 1, offset: 0 }),
    {
        let milli = AdcScale { lsb: 1, offset: 0 };
        ChargerCalibration {
            vbat: milli,
            vsys: milli,
            ichg: milli,
            idchg: milli,
            iin: milli,
            psys: AdcScale { lsb: 1280, offset: 0 },
            vbus: milli,
            cmpin: milli,
        }
    }
}

impl Bq25730Measurements {
    /// Charger readings for the codes of `p`.
    pub fn from_payload(p: &HostSideUsbPayload, c: &ChargerCalibration) -> (r: Self)
        ensures
            r == charger_of(*p, *c),
    {
        Bq25730Measurements {
            psys: c.psys.to_milli(p.bq25730_adc_psys_raw),
            vbus: c.vbus.to_milli(p.bq25730_adc_vbus_raw),
            idchg: c.idchg.to_milli(p.bq25730_adc_idchg_raw),
            ichg: c.ichg.to_milli(p.bq25730_adc_ichg_raw),
            cmpin: c.cmpin.to_milli(p.bq25730_adc_cmpin_raw),
            iin: c.iin.to_milli(p.bq25730_adc_iin_raw),
            vbat: c.vbat.to_milli(p.bq25730_adc_vbat_raw),
            vsys: c.vsys.to_milli(p.bq25730_adc_vsys_raw),
        }
    }
}

impl Temperatures {
    /// Temperatures for the sensor fields of `p`.
    pub fn from_payload(p: &HostSideUsbPayload) -> (r: Self)
        ensures
            r == temperatures_of(*p),
    {
        let ts2 = if p.bq76920_ts2_present != 0 {
            Some(ts_raw_to_centidegrees(p.bq76920_ts2_raw_adc))
        } else {
            None
        };
        let ts3 = if p.bq76920_ts3_present != 0 {
            Some(ts_raw_to_centidegrees(p.bq76920_ts3_raw_adc))
        } else {
            None
        };
        Temperatures {
            ts1: ts_raw_to_centidegrees(p.bq76920_ts1_raw_adc),
            ts2,
            ts3,
            is_thermistor: p.bq76920_is_thermistor != 0,
        }
    }
}

impl Bq25730Alerts {
    /// Splits the charger status word and the prochot status word into
    /// their registers, keeping every bit.
    pub fn from_words(cs: u16, ph: u16) -> (r: Self)
        ensures
            charger_alerts_decoded(r, cs, ph),
    {
        Bq25730Alerts {
            charger_status_flags: ChargerStatusFlags::from_bits_retain((cs / 256) as u8),
            charger_fault_flags: ChargerFaultFlags::from_bits_retain((cs % 256) as u8),
            prochot_lsb_flags: ProchotLsbFlags::from_bits_retain((ph % 256) as u8),
            prochot_msb_flags: ProchotMsbFlags::from_bits_retain((ph / 256) as u8),
            prochot_width: ((ph / 4096) % 4) as u8,
        }
    }

    /// The charger status word: status byte high, fault byte low.
    pub fn charger_status_word(&self) -> (r: u16)
        ensures
            r == charger_status_word(*self),
    {
        self.charger_status_flags.bits() as u16 * 256 + self.charger_fault_flags.bits() as u16
    }

    /// The prochot status word: the high flags and the width in the high
    /// byte, the low flags in the low byte.
    pub fn prochot_status_word(&self) -> (r: u16)
        ensures
            r == prochot_status_word(*self),
    {
        let high: u8 = self.prochot_msb_flags.bits() | ((self.prochot_width % 4) * 16);
        high as u16 * 256 + self.prochot_lsb_flags.bits() as u16
    }
}

impl<const N: usize> AllMeasurements<N> {
    /// The snapshot that the record `p` stands for.
    pub fn from_payload(p: &HostSideUsbPayload, c: &ChargerCalibration) -> (r: Self)
        ensures
            decoded_from(r, *p, *c),
            r == measurements_of::<N>(*p, *c),
    {
        let mut cells = [0i32; N];
        if N > 0 {
            cells[0] = p.bq76920_cell1_mv;
        }
        if N > 1 {
            cells[1] = p.bq76920_cell2_mv;
        }
        if N > 2 {
            cells[2] = p.bq76920_cell3_mv;
        }
        if N > 3 {
            cells[3] = p.bq76920_cell4_mv;
        }
        if N > 4 {
            cells[4] = p.bq76920_cell5_mv;
        }
        let r = AllMeasurements {
            bq25730: Bq25730Measurements::from_payload(p, c),
            bq76920: Bq76920Measurements {
                cell_voltages: cells,
                temperatures: Temperatures::from_payload(p),
                coulomb_counter: p.bq76920_current_ma,
                system_status: SystemStatus::from_bits_retain(p.bq76920_system_status_bits),
                mos_status: MosStatus::from_code(p.bq76920_mos_status_bits),
            },
            ina226: Ina226Measurements {
                voltage: p.ina226_voltage_bits,
                current: p.ina226_current_bits,
                power: p.ina226_power_bits,
            },
            bq25730_alerts: Bq25730Alerts::from_words(
                p.bq25730_charger_status_raw_u16,
                p.bq25730_prochot_status_raw_u16,
            ),
            bq76920_alerts: Bq76920Alerts {
                system_status: SystemStatus::from_bits_retain(p.bq76920_alerts_system_status_bits),
            },
        };
        proof {
            let m = measurements_of::<N>(*p, *c);
            lemma_decoded_from_unique(r, m, *p, *c);
        }
        r
    }

    /// The record that this snapshot is sent as.
    pub fn to_payload(&self, c: &ChargerCalibration) -> (r: HostSideUsbPayload)
        requires
            c.wf(),
        ensures
            r == payload_of_measurements(*self, *c),
    {
        let b = &self.bq25730;
        let g = &self.bq76920;
        let t = &g.temperatures;
        HostSideUsbPayload {
            bq25730_adc_vbat_raw: c.vbat.to_code(b.vbat),
            bq25730_adc_vsys_raw: c.vsys.to_code(b.vsys),
            bq25730_adc_ichg_raw: c.ichg.to_code(b.ichg),
            bq25730_adc_idchg_raw: c.idchg.to_code(b.idchg),
            bq25730_adc_iin_raw: c.iin.to_code(b.iin),
            bq25730_adc_psys_raw: c.psys.to_code(b.psys),
            bq25730_adc_vbus_raw: c.vbus.to_code(b.vbus),
            bq25730_adc_cmpin_raw: c.cmpin.to_code(b.cmpin),
            bq76920_cell1_mv: if N > 0 { g.cell_voltages[0] } else { 0 },
            bq76920_cell2_mv: if N > 1 { g.cell_voltages[1] } else { 0 },
            bq76920_cell3_mv: if N > 2 { g.cell_voltages[2] } else { 0 },
            bq76920_cell4_mv: if N > 3 { g.cell_voltages[3] } else { 0 },
            bq76920_cell5_mv: if N > 4 { g.cell_voltages[4] } else { 0 },
            bq76920_ts1_raw_adc: ts_centidegrees_to_raw(t.ts1),
            bq76920_ts2_present: if t.ts2.is_some() { 1 } else { 0 },
            bq76920_ts2_raw_adc: match t.ts2 {
                Some(cc) => ts_centidegrees_to_raw(cc),
                None => 0,
            },
            bq76920_ts3_present: if t.ts3.is_some() { 1 } else { 0 },
            bq76920_ts3_raw_adc: match t.ts3 {
                Some(cc) => ts_centidegrees_to_raw(cc),
                None => 0,
            },
            bq76920_is_thermistor: if t.is_thermistor { 1 } else { 0 },
            bq76920_current_ma: g.coulomb_counter,
            bq76920_system_status_bits: g.system_status.bits(),
            bq76920_mos_status_bits: g.mos_status.code(),
            ina226_voltage_bits: self.ina226.voltage,
            ina226_current_bits: self.ina226.current,
            ina226_power_bits: self.ina226.power,
            bq25730_charger_status_raw_u16: self.bq25730_alerts.charger_status_word(),
            bq25730_prochot_status_raw_u16: self.bq25730_alerts.prochot_status_word(),
            bq76920_alerts_system_status_bits: self.bq76920_alerts.system_status.bits(),
        }
    }
}

proof fn lemma_width_bits_in_high_byte(ph: u16)
    by (bit_vector)
    ensures
        ((ph / 256) as u8 | ((((ph / 4096) % 4) as u8 % 4) * 16) as u8) == (ph / 256) as u8,
{
}

/// Splitting the charger status word and the prochot status word into
/// registers and joining them again gives both words back, reserved bits
/// included.
pub proof fn lemma_alert_words_round_trip(a: Bq25730Alerts, cs: u16, ph: u16)
    requires
        charger_alerts_decoded(a, cs, ph),
    ensures
        charger_status_word(a) == cs,
        prochot_status_word(a) == ph,
{
    lemma_width_bits_in_high_byte(ph);
}

/// TS2 and TS3 read as absent exactly when their presence byte is zero,
/// whatever their code holds.
pub proof fn lemma_optional_temperature_presence(p: HostSideUsbPayload)
    ensures
        temperatures_of(p).ts2 is None <==> p.bq76920_ts2_present == 0,
        temperatures_of(p).ts3 is None <==> p.bq76920_ts3_present == 0,
{
}

/// A canonical record turned into a snapshot and back gives the record.
pub proof fn lemma_measurements_round_trip<const N: usize>(
    m: AllMeasurements<N>,
    p: HostSideUsbPayload,
    c: ChargerCalibration,
)
    requires
        c.wf(),
        N >= WIRE_CELLS,
        decoded_from(m, p, c),
        is_canonical_payload(p),
    ensures
        payload_of_measurements(m, c) == p,
{
    lemma_adc_value_bounds(c.vbat, p.bq25730_adc_vbat_raw);
    lemma_adc_value_bounds(c.vsys, p.bq25730_adc_vsys_raw);
    lemma_adc_value_bounds(c.ichg, p.bq25730_adc_ichg_raw);
    lemma_adc_value_bounds(c.idchg, p.bq25730_adc_idchg_raw);
    lemma_adc_value_bounds(c.iin, p.bq25730_adc_iin_raw);
    lemma_adc_value_bounds(c.psys, p.bq25730_adc_psys_raw);
    lemma_adc_value_bounds(c.vbus, p.bq25730_adc_vbus_raw);
    lemma_adc_value_bounds(c.cmpin, p.bq25730_adc_cmpin_raw);
    lemma_adc_round_trip(c.vbat, p.bq25730_adc_vbat_raw);
    lemma_adc_round_trip(c.vsys, p.bq25730_adc_vsys_raw);
    lemma_adc_round_trip(c.ichg, p.bq25730_adc_ichg_raw);
    lemma_adc_round_trip(c.idchg, p.bq25730_adc_idchg_raw);
    lemma_adc_round_trip(c.iin, p.bq25730_adc_iin_raw);
    lemma_adc_round_trip(c.psys, p.bq25730_adc_psys_raw);
    lemma_adc_round_trip(c.vbus, p.bq25730_adc_vbus_raw);
    lemma_adc_round_trip(c.cmpin, p.bq25730_adc_cmpin_raw);
    lemma_ts_bounds(p.bq76920_ts1_raw_adc);
    lemma_ts_bounds(p.bq76920_ts2_raw_adc);
    lemma_ts_bounds(p.bq76920_ts3_raw_adc);
    lemma_ts_round_trip(p.bq76920_ts1_raw_adc);
    lemma_ts_round_trip(p.bq76920_ts2_raw_adc);
    lemma_ts_round_trip(p.bq76920_ts3_raw_adc);
    lemma_mos_status_total(p.bq76920_mos_status_bits);
    lemma_alert_words_round_trip(
        m.bq25730_alerts,
        p.bq25730_charger_status_raw_u16,
        p.bq25730_prochot_status_raw_u16,
    );
    let cells = m.bq76920.cell_voltages@;
    assert(cells[0] == cell_mv(p, 0));
    assert(cells[1] == cell_mv(p, 1));
    assert(cells[2] == cell_mv(p, 2));
    assert(cells[3] == cell_mv(p, 3));
    assert(cells[4] == cell_mv(p, 4));
    assert(payload_of_measurements(m, c) =~= p);
}

} // verus!
