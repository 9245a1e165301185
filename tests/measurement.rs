use ruuvitag_sensor_rs::measurement::{
    decode, get_acceleration, get_humidity, get_measurement_sequence_number, get_movement_counter,
    get_power_info, get_pressure, get_temperature, rshift, twos_complement, DecodeError,
    RuuviMeasurement,
};

/// The valid format-5 example of the format's documentation, behind the vendor id.
fn reference_payload() -> Vec<u8> {
    vec![
        0x99, 0x04, 0x05, 0x12, 0xFC, 0x53, 0x94, 0xC3, 0x7C, 0x00, 0x04, 0xFF, 0xFC, 0x04, 0x0C,
        0xAC, 0x36, 0x42, 0x00, 0xCD, 0xCB, 0xB8, 0x33, 0x4C, 0x88, 0x4F,
    ]
}

fn with_word(mut payload: Vec<u8>, at: usize, word: u16) -> Vec<u8> {
    payload[at] = (word >> 8) as u8;
    payload[at + 1] = (word & 0xFF) as u8;
    payload
}

#[test]
fn twos_complement_sixteen_bits() {
    assert_eq!(twos_complement(0x7FFF, 16), 32767);
    assert_eq!(twos_complement(0x8000, 16), -32768);
    assert_eq!(twos_complement(0xFFFF, 16), -1);
    assert_eq!(twos_complement(0, 16), 0);
}

#[test]
fn twos_complement_eight_and_eleven_bits() {
    assert_eq!(twos_complement(0xFF, 8), -1);
    assert_eq!(twos_complement(0x7F, 8), 127);
    assert_eq!(twos_complement(0x80, 8), -128);
    assert_eq!(twos_complement(0x7FF, 11), -1);
    assert_eq!(twos_complement(0x400, 11), -1024);
    assert_eq!(twos_complement(0x3FF, 11), 1023);
}

#[test]
fn rshift_divides() {
    assert_eq!(rshift(0xA54C, 5), 1322);
    assert_eq!(rshift(0xFFFF, 0), 0xFFFF);
    assert_eq!(rshift(0xFFFF, 16), 0);
}

#[test]
fn decode_reference_payload() {
    let m = decode(&reference_payload()).unwrap();
    assert_eq!(m.data_format, 5);
    assert_eq!(m.temperature, Some(24300));
    assert_eq!(m.humidity, Some(534900));
    assert_eq!(m.pressure, Some(100044));
    assert_eq!(m.acceleration, Some((4, -4, 1036)));
    assert_eq!(m.battery_voltage, Some(2977));
    assert_eq!(m.tx_power, Some(4));
    assert_eq!(m.movement_counter, 66);
    assert_eq!(m.sequence_number, 205);
    assert_eq!(m.mac, vec![0xCB, 0xB8, 0x33, 0x4C, 0x88, 0x4F]);
}

#[test]
fn decode_temperature_and_power_literals() {
    let p = with_word(with_word(reference_payload(), 3, 0x00C9), 15, 0xA54C);
    let m = decode(&p).unwrap();
    // 201 / 200 = 1.005 degrees
    assert_eq!(m.temperature, Some(1005));
    assert_eq!(m.battery_voltage, Some(2922));
    assert_eq!(m.tx_power, Some(-16));
    assert_eq!(get_temperature(&p), Some(1005));
    assert_eq!(get_power_info(&p), (Some(2922), Some(-16)));
}

#[test]
fn decode_negative_temperature() {
    let p = with_word(reference_payload(), 3, 0xFC18);
    assert_eq!(get_temperature(&p), Some(-5000));
}

#[test]
fn sentinel_temperature_is_absent_not_zero() {
    let absent = with_word(reference_payload(), 3, 0x7FFF);
    let zero = with_word(reference_payload(), 3, 0x0000);
    assert_eq!(decode(&absent).unwrap().temperature, None);
    assert_eq!(decode(&zero).unwrap().temperature, Some(0));
}

#[test]
fn sentinel_fields_are_absent() {
    let p = reference_payload();
    let p = with_word(p, 5, 0xFFFF);
    let p = with_word(p, 7, 0xFFFF);
    let p = with_word(p, 11, 0x7FFF);
    let p = with_word(p, 15, 0xFFFF);
    let m = decode(&p).unwrap();
    assert_eq!(m.humidity, None);
    assert_eq!(m.pressure, None);
    assert_eq!(m.acceleration, None);
    assert_eq!(m.battery_voltage, None);
    assert_eq!(m.tx_power, None);
    assert_eq!(get_humidity(&p), None);
    assert_eq!(get_pressure(&p), None);
    assert_eq!(get_acceleration(&p), None);
}

#[test]
fn zero_fields_are_present() {
    let p = reference_payload();
    let p = with_word(p, 5, 0);
    let p = with_word(p, 7, 0);
    let p = with_word(p, 9, 0);
    let p = with_word(p, 11, 0);
    let p = with_word(p, 13, 0);
    let p = with_word(p, 15, 0);
    let m = decode(&p).unwrap();
    assert_eq!(m.humidity, Some(0));
    assert_eq!(m.pressure, Some(50000));
    assert_eq!(m.acceleration, Some((0, 0, 0)));
    assert_eq!(m.battery_voltage, Some(1600));
    assert_eq!(m.tx_power, Some(-40));
}

#[test]
fn extreme_fields() {
    let p = reference_payload();
    let p = with_word(p, 3, 0x8001);
    let p = with_word(p, 5, 0xFFFE);
    let p = with_word(p, 7, 0xFFFE);
    let p = with_word(p, 9, 0x8000);
    let p = with_word(p, 15, 0xFFDE);
    let m = decode(&p).unwrap();
    assert_eq!(m.temperature, Some(-163835));
    assert_eq!(m.humidity, Some(1638350));
    assert_eq!(m.pressure, Some(115534));
    assert_eq!(m.acceleration, Some((-32768, -4, 1036)));
    assert_eq!(m.battery_voltage, Some(3646));
    assert_eq!(m.tx_power, Some(20));
}

#[test]
fn movement_and_sequence_have_no_sentinel() {
    let mut p = with_word(reference_payload(), 18, 0xFFFF);
    p[17] = 0xFF;
    assert_eq!(get_movement_counter(&p), 255);
    assert_eq!(get_measurement_sequence_number(&p), 65535);
}

#[test]
fn foreign_manufacturer_rejected() {
    let mut p = reference_payload();
    p[0] = 0x98;
    assert!(matches!(decode(&p), Err(DecodeError::UnrecognizedManufacturer)));
    assert!(matches!(decode(&[0x00, 0x00]), Err(DecodeError::UnrecognizedManufacturer)));
    assert!(matches!(decode(&[0x04, 0x99, 0x05]), Err(DecodeError::UnrecognizedManufacturer)));
}

#[test]
fn short_payload_rejected() {
    assert!(matches!(decode(&[]), Err(DecodeError::EmptyPayload)));
    assert!(matches!(decode(&[0x99]), Err(DecodeError::EmptyPayload)));
    assert!(matches!(decode(&[0x99, 0x04]), Err(DecodeError::EmptyPayload)));
    let p = reference_payload();
    for len in 2..p.len() {
        assert!(matches!(decode(&p[..len]), Err(DecodeError::EmptyPayload)));
    }
}

#[test]
fn unknown_format_is_malformed() {
    let mut p = reference_payload();
    p[2] = 3;
    assert!(matches!(decode(&p), Err(DecodeError::Malformed)));
}

#[test]
fn trailing_bytes_are_ignored() {
    let mut p = reference_payload();
    p.push(0xAA);
    assert_eq!(decode(&p).unwrap().temperature, Some(24300));
}

#[test]
fn from_str_reads_hex_text() {
    let m = RuuviMeasurement::from_str("99040512FC5394C37C0004FFFC040CAC364200CDCBB8334C884F")
        .unwrap();
    assert_eq!(m.temperature, Some(24300));
    assert_eq!(m.pressure, Some(100044));
    assert_eq!(m.mac, vec![0xCB, 0xB8, 0x33, 0x4C, 0x88, 0x4F]);
    let lower = RuuviMeasurement::from_str("99040512fc5394c37c0004fffc040cac364200cdcbb8334c884f")
        .unwrap();
    assert_eq!(lower.humidity, Some(534900));
}

#[test]
fn from_str_rejects_bad_text() {
    assert!(matches!(RuuviMeasurement::from_str("99040"), Err(DecodeError::Malformed)));
    assert!(matches!(RuuviMeasurement::from_str("9904zz"), Err(DecodeError::Malformed)));
    assert!(matches!(
        RuuviMeasurement::from_str("98040512FC"),
        Err(DecodeError::UnrecognizedManufacturer)
    ));
    assert!(matches!(RuuviMeasurement::from_str("990405"), Err(DecodeError::EmptyPayload)));
}
