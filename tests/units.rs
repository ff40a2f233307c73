use ups120_daemon::data_models::ChargerCalibration;
use ups120_daemon::units::{ts_centidegrees_to_raw, ts_raw_to_centidegrees, AdcScale};

#[test]
fn adc_code_scales_and_subtracts_offset() {
    let vbat = AdcScale { lsb: 64, offset: 2_880 };
    assert_eq!(vbat.to_milli(0), -2_880);
    assert_eq!(vbat.to_milli(200), 200 * 64 - 2_880);
    let psys = AdcScale { lsb: 1_280, offset: 0 };
    assert_eq!(psys.to_milli(36), 46_080);
    assert_eq!(psys.to_milli(0xFFFF), 65_535 * 1_280);
}

#[test]
fn adc_code_zero_is_the_offset_for_every_channel() {
    let c = ChargerCalibration::firmware();
    for s in [c.vbat, c.vsys, c.ichg, c.idchg, c.iin, c.psys, c.vbus, c.cmpin] {
        assert_eq!(s.to_milli(0), -(s.offset as i64));
    }
    let offset = AdcScale { lsb: 64, offset: 2_880 };
    assert_eq!(offset.to_milli(0), -2_880);
    assert_ne!(offset.to_milli(0), 0);
}

#[test]
fn adc_encoding_adds_offset_and_rounds() {
    let s = AdcScale { lsb: 64, offset: 2_880 };
    assert_eq!(s.to_code(200 * 64 - 2_880), 200);
    assert_eq!(s.to_code(200 * 64 - 2_880 + 31), 200);
    assert_eq!(s.to_code(200 * 64 - 2_880 + 32), 201);
    assert_eq!(s.to_code(200 * 64 - 2_880 - 33), 199);
    assert_eq!(s.to_code(-2_880), 0);
    assert_eq!(s.to_code(-10_000), 0);
    assert_eq!(s.to_code(i64::MAX), 0xFFFF);
    let psys = AdcScale { lsb: 1_280, offset: 0 };
    assert_eq!(psys.to_code(46_080), 36);
    assert_eq!(psys.to_code(640), 1);
    assert_eq!(psys.to_code(639), 0);
}

#[test]
fn adc_codes_round_trip() {
    let scales = [
        AdcScale { lsb: 1, offset: 0 },
        AdcScale { lsb: 64, offset: 2_880 },
        AdcScale { lsb: 1_280, offset: 0 },
        AdcScale { lsb: 3, offset: 7 },
    ];
    for s in scales {
        for code in [0u16, 1, 2, 255, 256, 4_096, 65_534, 65_535] {
            assert_eq!(s.to_code(s.to_milli(code)), code);
        }
    }
}

#[test]
fn temperature_at_reference_code() {
    assert_eq!(ts_raw_to_centidegrees(3_141), 2_503);
    assert_eq!(ts_raw_to_centidegrees(3_142), 2_495);
    assert_eq!(ts_raw_to_centidegrees(0), 31_071);
    assert_eq!(ts_raw_to_centidegrees(4_000), 2_500 - (4_000 * 382 - 1_200_000) / 42);
    assert_eq!(ts_raw_to_centidegrees(65_535), 2_500 - (65_535 * 382 - 1_200_000) / 42);
}

#[test]
fn temperature_encoding_is_nearest_code() {
    assert_eq!(ts_centidegrees_to_raw(2_500), 3_141);
    assert_eq!(ts_centidegrees_to_raw(2_503), 3_141);
    assert_eq!(ts_centidegrees_to_raw(2_495), 3_142);
    assert_eq!(ts_centidegrees_to_raw(40_000), 0);
    assert_eq!(ts_centidegrees_to_raw(i32::MIN), 0xFFFF);
}

#[test]
fn temperature_codes_round_trip() {
    for raw in (0..=u16::MAX).step_by(97).chain([u16::MAX]) {
        assert_eq!(ts_centidegrees_to_raw(ts_raw_to_centidegrees(raw)), raw);
    }
}
