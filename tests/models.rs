use ups120_daemon::codec::HostSideUsbPayload;
use ups120_daemon::data_models::{
    AllMeasurements, Bq25730Alerts, ChargerCalibration, Temperatures, WIRE_CELLS,
};
use ups120_daemon::flags::{
    ChargerFaultFlags, ChargerStatusFlags, MosStatus, ProchotLsbFlags, ProchotMsbFlags,
    SystemStatus,
};
use ups120_daemon::units::AdcScale;

fn sample_payload() -> HostSideUsbPayload {
    HostSideUsbPayload {
        bq25730_adc_vbat_raw: 12_600,
        bq25730_adc_vsys_raw: 12_100,
        bq25730_adc_ichg_raw: 1_500,
        bq25730_adc_idchg_raw: 0,
        bq25730_adc_iin_raw: 2_000,
        bq25730_adc_psys_raw: 36,
        bq25730_adc_vbus_raw: 20_000,
        bq25730_adc_cmpin_raw: 1_200,
        bq76920_cell1_mv: 3_700,
        bq76920_cell2_mv: 3_701,
        bq76920_cell3_mv: 3_702,
        bq76920_cell4_mv: 3_703,
        bq76920_cell5_mv: 3_704,
        bq76920_ts1_raw_adc: 3_141,
        bq76920_ts2_present: 1,
        bq76920_ts2_raw_adc: 3_142,
        bq76920_ts3_present: 0,
        bq76920_ts3_raw_adc: 0,
        bq76920_is_thermistor: 1,
        bq76920_current_ma: -1_250,
        bq76920_system_status_bits: 0b1000_0001,
        bq76920_mos_status_bits: 0b01,
        ina226_voltage_bits: 12.5f32.to_bits(),
        ina226_current_bits: (-0.75f32).to_bits(),
        ina226_power_bits: 9.375f32.to_bits(),
        bq25730_charger_status_raw_u16: 0x8001,
        bq25730_prochot_status_raw_u16: 0x3041,
        bq76920_alerts_system_status_bits: 0b0100_0000,
    }
}

#[test]
fn snapshot_from_payload() {
    let p = sample_payload();
    let m = AllMeasurements::<5>::from_payload(&p, &ChargerCalibration::firmware());
    assert_eq!(m.bq25730.vbat, 12_600);
    assert_eq!(m.bq25730.vsys, 12_100);
    assert_eq!(m.bq25730.psys, 46_080);
    assert_eq!(m.bq25730.vbus, 20_000);
    assert_eq!(m.bq25730.iin, 2_000);
    assert_eq!(m.bq76920.cell_voltages, [3_700, 3_701, 3_702, 3_703, 3_704]);
    assert_eq!(m.bq76920.temperatures.ts1, 2_503);
    assert_eq!(m.bq76920.temperatures.ts2, Some(2_495));
    assert_eq!(m.bq76920.temperatures.ts3, None);
    assert!(m.bq76920.temperatures.is_thermistor);
    assert_eq!(m.bq76920.coulomb_counter, -1_250);
    assert!(m.bq76920.system_status.contains(SystemStatus::OCD));
    assert!(m.bq76920.system_status.contains(SystemStatus::CC_READY));
    assert!(!m.bq76920.system_status.contains(SystemStatus::OV));
    assert_eq!(m.bq76920.mos_status, MosStatus::ChargeOn);
    assert_eq!(f32::from_bits(m.ina226.voltage), 12.5);
    assert_eq!(f32::from_bits(m.ina226.current), -0.75);
    assert_eq!(f32::from_bits(m.ina226.power), 9.375);
    assert!(m.bq25730_alerts.charger_status_flags.contains(ChargerStatusFlags::STAT_AC));
    assert!(m.bq25730_alerts.charger_fault_flags.contains(ChargerFaultFlags::FAULT_OTG_UVP));
    assert!(!m.bq25730_alerts.charger_fault_flags.contains(ChargerFaultFlags::FAULT_ACOV));
    assert_eq!(m.bq25730_alerts.prochot_width, 3);
    assert!(m.bq25730_alerts.prochot_lsb_flags.contains(ProchotLsbFlags::STAT_COMP));
    assert!(m.bq25730_alerts.prochot_lsb_flags.contains(ProchotLsbFlags::STAT_ADPT_REMOVAL));
    assert_eq!(m.bq25730_alerts.prochot_msb_flags.bits(), 0x30);
    assert_eq!(m.bq76920_alerts.system_status.bits(), 0b0100_0000);
}

#[test]
fn cells_past_the_wire_read_zero() {
    let p = sample_payload();
    let m = AllMeasurements::<7>::from_payload(&p, &ChargerCalibration::firmware());
    assert_eq!(m.bq76920.cell_voltages, [3_700, 3_701, 3_702, 3_703, 3_704, 0, 0]);
    let m3 = AllMeasurements::<3>::from_payload(&p, &ChargerCalibration::firmware());
    assert_eq!(m3.bq76920.cell_voltages, [3_700, 3_701, 3_702]);
    assert_eq!(WIRE_CELLS, 5);
}

#[test]
fn snapshot_round_trips_to_payload() {
    let p = sample_payload();
    let c = ChargerCalibration::firmware();
    let m = AllMeasurements::<5>::from_payload(&p, &c);
    assert_eq!(m.to_payload(&c), p);
}

#[test]
fn snapshot_round_trips_with_offset_calibration() {
    let mut c = ChargerCalibration::firmware();
    c.vbat = AdcScale { lsb: 64, offset: 2_880 };
    c.vsys = AdcScale { lsb: 64, offset: 2_880 };
    let mut p = sample_payload();
    p.bq25730_adc_vbat_raw = 0;
    p.bq25730_adc_vsys_raw = 150;
    let m = AllMeasurements::<5>::from_payload(&p, &c);
    assert_eq!(m.bq25730.vbat, -2_880);
    assert_eq!(m.bq25730.vsys, 150 * 64 - 2_880);
    assert_eq!(m.to_payload(&c), p);
}

#[test]
fn non_canonical_payload_is_normalised() {
    let mut p = sample_payload();
    p.bq76920_mos_status_bits = 7;
    p.bq76920_ts3_present = 0;
    p.bq76920_ts3_raw_adc = 4_000;
    p.bq76920_is_thermistor = 5;
    let c = ChargerCalibration::firmware();
    let m = AllMeasurements::<5>::from_payload(&p, &c);
    assert_eq!(m.bq76920.mos_status, MosStatus::Unknown);
    assert_eq!(m.bq76920.temperatures.ts3, None);
    let back = m.to_payload(&c);
    assert_eq!(back.bq76920_mos_status_bits, 0);
    assert_eq!(back.bq76920_ts3_raw_adc, 0);
    assert_eq!(back.bq76920_is_thermistor, 1);
}

#[test]
fn mos_status_covers_the_two_bit_field() {
    assert_eq!(MosStatus::from_code(0b00), MosStatus::BothOff);
    assert_eq!(MosStatus::from_code(0b01), MosStatus::ChargeOn);
    assert_eq!(MosStatus::from_code(0b10), MosStatus::DischargeOn);
    assert_eq!(MosStatus::from_code(0b11), MosStatus::BothOn);
    for code in 0..4u8 {
        assert_ne!(MosStatus::from_code(code), MosStatus::Unknown);
        assert_eq!(MosStatus::from_code(code).code(), code);
    }
    assert_eq!(MosStatus::from_code(4), MosStatus::Unknown);
    assert_eq!(MosStatus::from_code(0xFF), MosStatus::Unknown);
    assert_eq!(MosStatus::Unknown.code(), 0);
}

#[test]
fn absent_sensor_is_none_whatever_its_code() {
    let mut p = sample_payload();
    p.bq76920_ts2_present = 0;
    p.bq76920_ts2_raw_adc = 3_141;
    p.bq76920_ts3_present = 0;
    p.bq76920_ts3_raw_adc = 0xFFFF;
    let t = Temperatures::from_payload(&p);
    assert_eq!(t.ts2, None);
    assert_eq!(t.ts3, None);
    p.bq76920_ts2_present = 2;
    p.bq76920_ts3_present = 1;
    p.bq76920_ts3_raw_adc = 0;
    let t = Temperatures::from_payload(&p);
    assert_eq!(t.ts2, Some(2_503));
    assert_eq!(t.ts3, Some(31_071));
}

#[test]
fn alert_words_keep_every_bit() {
    for (cs, ph) in [(0x0000u16, 0x0000u16), (0xFFFF, 0xFFFF), (0x8001, 0x3041), (0x1234, 0xB5A7)] {
        let a = Bq25730Alerts::from_words(cs, ph);
        assert_eq!(a.charger_status_word(), cs);
        assert_eq!(a.prochot_status_word(), ph);
    }
    let a = Bq25730Alerts::from_words(0x0000, 0x2480);
    assert_eq!(a.prochot_width, 2);
    assert!(a.prochot_msb_flags.contains(ProchotMsbFlags::STAT_VAP_FAIL) == false);
    assert_eq!(a.prochot_msb_flags.bits(), 0x24);
    assert!(a.prochot_lsb_flags.contains(ProchotLsbFlags::STAT_VINDPM));
}

#[test]
fn alert_width_joins_the_high_byte() {
    let mut a = Bq25730Alerts::default();
    a.prochot_width = 1;
    a.prochot_msb_flags = ProchotMsbFlags::from_bits_retain(ProchotMsbFlags::EN_PROCHOT_EXT);
    a.prochot_lsb_flags = ProchotLsbFlags::from_bits_retain(0x05);
    assert_eq!(a.prochot_status_word(), 0x5005);
    a.charger_status_flags = ChargerStatusFlags::from_bits_retain(0xAB);
    a.charger_fault_flags = ChargerFaultFlags::from_bits_retain(0xCD);
    assert_eq!(a.charger_status_word(), 0xABCD);
}

#[test]
fn flag_registers_keep_or_drop_reserved_bits() {
    assert_eq!(SystemStatus::from_bits_retain(0xFF).bits(), 0xFF);
    assert_eq!(SystemStatus::from_bits_truncate(0xFF).bits(), 0b1011_1111);
    assert_eq!(ProchotMsbFlags::from_bits_truncate(0xFF).bits(), 0b0100_1011);
    assert_eq!(SystemStatus::default().bits(), 0);
    assert_eq!(SystemStatus::empty(), SystemStatus::default());
    let s = SystemStatus::from_bits_retain(SystemStatus::UV | SystemStatus::SCD);
    assert!(s.contains(SystemStatus::UV));
    assert!(s.contains(SystemStatus::UV | SystemStatus::SCD));
    assert!(!s.contains(SystemStatus::UV | SystemStatus::OV));
}
