use mini_current_meter::sensor::{
    battery_from_adc, startup_writes, RegisterWrite, REG_ADC_CONFIG, REG_CONFIG, REG_SHUNT_CAL,
    REG_SHUNT_TEMPCO, adc_config, decode_current, decode_power, decode_register, decode_voltage, default_adc_config,
    encode_register_write, join24, shunt_cal, AdcRange, Calibration, CalibrationStep, SensorError,
    SensorReader, BUS_ADDRESS, CALIBRATION_SAMPLES, CURRENT_LIMIT, REG_CURRENT, REG_POWER, REG_VBUS,
    VOLTAGE_LIMIT,
};

#[test]
fn register_map() {
    assert_eq!(BUS_ADDRESS, 0x40);
    assert_eq!(REG_VBUS, 0x05);
    assert_eq!(REG_CURRENT, 0x07);
    assert_eq!(REG_POWER, 0x08);
    assert_eq!(CALIBRATION_SAMPLES, 300);
}

#[test]
fn three_bytes_join_big_endian() {
    assert_eq!(join24([0x00, 0x00, 0x00]), 0);
    assert_eq!(join24([0x12, 0x34, 0x56]), 0x123456);
    assert_eq!(join24([0xFF, 0xFF, 0xFF]), 0xFF_FFFF);
}

#[test]
fn current_decode_table() {
    assert_eq!(decode_current([0x00, 0x00, 0x00]), 0);
    assert_eq!(decode_current([0x80, 0x00, 0x10]), -524_287);
    assert_eq!(decode_current([0x00, 0x00, 0x10]), 1);
    assert_eq!(decode_current([0x00, 0x00, 0x0F]), 0);
    assert_eq!(decode_current([0x7F, 0xFF, 0xFF]), 524_287);
    assert_eq!(decode_current([0x7F, 0xFF, 0xF0]), 524_287);
    assert_eq!(decode_current([0x80, 0x00, 0x00]), -524_288);
    assert_eq!(decode_current([0xFF, 0xFF, 0xF0]), -1);
    assert_eq!(decode_current([0xFF, 0xFF, 0xFF]), -1);
    assert_eq!(decode_current([0xFF, 0xFF, 0xE0]), -2);
    assert_eq!(decode_current([0x12, 0x34, 0x56]), 0x12345);
}

#[test]
fn voltage_and_power_decode() {
    assert_eq!(decode_voltage([0x00, 0x00, 0x00]), 0);
    assert_eq!(decode_voltage([0x00, 0x01, 0x00]), 16);
    assert_eq!(decode_voltage([0xFF, 0xFF, 0xFF]), 0xF_FFFF);
    assert_eq!(decode_voltage([0x80, 0x00, 0x10]), 0x8_0001);
    assert_eq!(decode_power([0x00, 0x00, 0x01]), 1);
    assert_eq!(decode_power([0xFF, 0xFF, 0xFF]), 0xFF_FFFF);
}

#[test]
fn readings_are_scaled_to_nano_units() {
    let narrow = SensorReader::new(AdcRange::Narrow);
    let wide = SensorReader::new(AdcRange::Wide);
    assert_eq!(narrow.current_read(Some([0x00, 0x01, 0x00])), Ok(16 * 78_125));
    assert_eq!(wide.current_read(Some([0x00, 0x01, 0x00])), Ok(16 * 312_500));
    assert_eq!(narrow.current_read(Some([0xFF, 0xFF, 0xF0])), Ok(-78_125));
    assert_eq!(wide.current_read(Some([0x80, 0x00, 0x00])), Ok(-CURRENT_LIMIT));
    assert_eq!(narrow.voltage_read(Some([0x00, 0x00, 0x10])), Ok(195_312));
    assert_eq!(narrow.voltage_read(Some([0x00, 0x00, 0x20])), Ok(390_625));
    assert_eq!(narrow.voltage_read(Some([0x00, 0xA0, 0x00])), Ok(500_000_000));
    assert_eq!(narrow.voltage_read(Some([0xFF, 0xFF, 0xFF])), Ok(VOLTAGE_LIMIT));
    assert_eq!(narrow.power_read(Some([0x00, 0x00, 0x04])), Ok(1_000_000));
    assert_eq!(wide.power_read(Some([0x00, 0x00, 0x04])), Ok(4_000_000));
}

#[test]
fn failed_reads_name_their_quantity() {
    let reader = SensorReader::new(AdcRange::Narrow);
    assert_eq!(reader.current_read(None), Err(SensorError::Current));
    assert_eq!(reader.voltage_read(None), Err(SensorError::Voltage));
    assert_eq!(reader.power_read(None), Err(SensorError::Power));
    assert_eq!(SensorError::Current.message(), "Current Read Error");
    assert_eq!(SensorError::Voltage.message(), "Voltage Read Error");
    assert_eq!(SensorError::Power.message(), "Power Read Error");
}

#[test]
fn offsets_are_subtracted_after_scaling() {
    let mut reader = SensorReader::new(AdcRange::Narrow);
    assert_eq!(reader.range(), AdcRange::Narrow);
    assert_eq!(reader.offsets(), (0, 0));
    assert!(reader.set_offsets(-1_000, 2_000));
    assert_eq!(reader.offsets(), (-1_000, 2_000));
    assert_eq!(reader.current_read(Some([0x00, 0x01, 0x00])), Ok(1_250_000 + 1_000));
    assert_eq!(reader.voltage_read(Some([0x00, 0xA0, 0x00])), Ok(500_000_000 - 2_000));
    assert_eq!(reader.power_read(Some([0x00, 0x00, 0x04])), Ok(1_000_000));
}

#[test]
fn offsets_out_of_range_are_refused() {
    let mut reader = SensorReader::new(AdcRange::Wide);
    assert!(reader.set_offsets(5, 7));
    assert!(!reader.set_offsets(CURRENT_LIMIT + 1, 0));
    assert!(!reader.set_offsets(-CURRENT_LIMIT - 1, 0));
    assert!(!reader.set_offsets(0, -1));
    assert!(!reader.set_offsets(0, VOLTAGE_LIMIT + 1));
    assert_eq!(reader.offsets(), (5, 7));
    assert!(reader.set_offsets(-CURRENT_LIMIT, VOLTAGE_LIMIT));
    assert_eq!(reader.offsets(), (-CURRENT_LIMIT, VOLTAGE_LIMIT));
}

#[test]
fn range_constants() {
    assert_eq!(AdcRange::Narrow.current_lsb(), 78_125);
    assert_eq!(AdcRange::Wide.current_lsb(), 312_500);
    assert_eq!(AdcRange::Narrow.power_lsb(), 250_000);
    assert_eq!(AdcRange::Wide.power_lsb(), 1_000_000);
    assert_eq!(AdcRange::Narrow.configuration(), 0x0030);
    assert_eq!(AdcRange::Wide.configuration(), 0x0020);
}

#[test]
fn shunt_calibration_values() {
    assert_eq!(shunt_cal(5_000), 20_480);
    assert_eq!(shunt_cal(0), 0);
    assert_eq!(shunt_cal(1), 4);
    assert_eq!(shunt_cal(15_999), 65_531);
    assert_eq!(shunt_cal(16_000), 65_535);
    assert_eq!(shunt_cal(u32::MAX), 65_535);
}

#[test]
fn converter_configuration_words() {
    assert_eq!(default_adc_config(), 0xFBEE);
    assert_eq!(adc_config(0, 0, 0, 0, 0), 0);
    assert_eq!(adc_config(15, 7, 7, 7, 7), 0xFFFF);
    assert_eq!(adc_config(1, 2, 3, 4, 5), 0x14E5);
}

#[test]
fn register_write_and_read_back() {
    assert_eq!(encode_register_write(0x02, 0x5000), [0x02, 0x50, 0x00]);
    assert_eq!(encode_register_write(0x01, 0xFBEE), [0x01, 0xFB, 0xEE]);
    assert_eq!(decode_register([0xFB, 0xEE]), 0xFBEE);
    assert_eq!(decode_register([0x00, 0x32]), 50);
    for value in [0u16, 1, 0x00FF, 0x0100, 0x1234, 0xFFFF] {
        let bytes = encode_register_write(0x03, value);
        assert_eq!(bytes[0], 0x03);
        assert_eq!(decode_register([bytes[1], bytes[2]]), value);
    }
}

#[test]
fn calibration_averages_three_hundred_samples() {
    let mut run = Calibration::new(AdcRange::Narrow);
    assert_eq!(run.samples_taken(), 0);
    let mut done = None;
    for i in 0..300u32 {
        let current: [u8; 3] = if i % 2 == 0 { [0x00, 0x00, 0x10] } else { [0x00, 0x00, 0x30] };
        match run.feed(Some((current, [0x00, 0xA0, 0x00]))) {
            CalibrationStep::Continue(next) => {
                assert!(i < 299);
                assert_eq!(next.samples_taken(), i + 1);
                run = next;
            }
            CalibrationStep::Done { current_offset, voltage_offset } => {
                assert_eq!(i, 299);
                done = Some((current_offset, voltage_offset));
                break;
            }
            CalibrationStep::Failed => panic!("no read failed"),
        }
    }
    assert_eq!(done, Some((2 * 78_125, 500_000_000)));
}

#[test]
fn calibration_average_rounds_toward_zero() {
    let mut run = Calibration::new(AdcRange::Narrow);
    let mut done = None;
    for i in 0..300u32 {
        let current: [u8; 3] = if i == 0 { [0xFF, 0xFF, 0xF0] } else { [0x00, 0x00, 0x00] };
        let voltage: [u8; 3] = if i == 0 { [0x00, 0x00, 0x10] } else { [0x00, 0x00, 0x00] };
        match run.feed(Some((current, voltage))) {
            CalibrationStep::Continue(next) => run = next,
            CalibrationStep::Done { current_offset, voltage_offset } => {
                done = Some((current_offset, voltage_offset));
                break;
            }
            CalibrationStep::Failed => panic!("no read failed"),
        }
    }
    assert_eq!(done, Some((-260, 651)));
}

#[test]
fn calibration_is_abandoned_on_a_failed_read() {
    let mut run = Calibration::new(AdcRange::Wide);
    for _ in 0..10 {
        match run.feed(Some(([0x00, 0x00, 0x10], [0x00, 0x00, 0x10]))) {
            CalibrationStep::Continue(next) => run = next,
            _ => panic!("ten samples do not end a run"),
        }
    }
    assert!(matches!(run.feed(None), CalibrationStep::Failed));
    let mut reader = SensorReader::new(AdcRange::Wide);
    assert!(reader.set_offsets(11, 22));
    assert_eq!(reader.offsets(), (11, 22));
}

#[test]
fn calibration_offsets_are_accepted_by_the_reader() {
    let mut run = Calibration::new(AdcRange::Wide);
    let mut reader = SensorReader::new(AdcRange::Wide);
    loop {
        match run.feed(Some(([0x80, 0x00, 0x00], [0xFF, 0xFF, 0xFF]))) {
            CalibrationStep::Continue(next) => run = next,
            CalibrationStep::Done { current_offset, voltage_offset } => {
                assert_eq!(current_offset, -CURRENT_LIMIT);
                assert_eq!(voltage_offset, VOLTAGE_LIMIT);
                assert!(reader.set_offsets(current_offset, voltage_offset));
                break;
            }
            CalibrationStep::Failed => panic!("no read failed"),
        }
    }
    assert_eq!(reader.current_read(Some([0x80, 0x00, 0x00])), Ok(0));
    assert_eq!(reader.voltage_read(Some([0xFF, 0xFF, 0xFF])), Ok(0));
}

#[test]
fn battery_input_sits_behind_a_divider() {
    assert_eq!(battery_from_adc(0), 0);
    assert_eq!(battery_from_adc(1_950), 3_900_000_000);
    assert_eq!(battery_from_adc(u16::MAX), 131_070_000_000);
}

#[test]
fn startup_writes_in_their_order() {
    assert_eq!(
        startup_writes(AdcRange::Narrow, 5_000, 50),
        [
            RegisterWrite { reg: REG_CONFIG, value: 0x0030 },
            RegisterWrite { reg: REG_ADC_CONFIG, value: 0xFBEE },
            RegisterWrite { reg: REG_SHUNT_CAL, value: 20_480 },
            RegisterWrite { reg: REG_SHUNT_TEMPCO, value: 50 },
        ]
    );
    let wide = startup_writes(AdcRange::Wide, 100_000, 0);
    assert_eq!(wide[0], RegisterWrite { reg: 0x00, value: 0x0020 });
    assert_eq!(wide[2], RegisterWrite { reg: 0x02, value: 0xFFFF });
    assert_eq!(wide[3], RegisterWrite { reg: 0x03, value: 0 });
}

#[test]
fn readback_confirms_a_write() {
    let write = RegisterWrite { reg: REG_SHUNT_CAL, value: 0x5000 };
    assert_eq!(write.bytes(), [0x02, 0x50, 0x00]);
    assert!(write.confirmed_by([0x50, 0x00]));
    assert!(!write.confirmed_by([0x50, 0x01]));
    assert!(!write.confirmed_by([0x00, 0x50]));
}
