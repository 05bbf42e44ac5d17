use ina219_reader::pipeline::process_report;
use ina219_reader::report::{DecodeError, Ina219Report, REPORT_LEN, SCALE};
use ina219_reader::selection::{FieldName, FieldSelection, select_fields};

/// The physical reading a fixed-point field stands for.
fn reading(v: i64) -> f64 {
    v as f64 / SCALE as f64
}

fn all_fields() -> FieldSelection {
    FieldSelection { voltage: true, shunt_voltage: true, current: true, power: true }
}

fn no_fields() -> FieldSelection {
    FieldSelection { voltage: false, shunt_voltage: false, current: false, power: false }
}

#[test]
fn decode_reads_little_endian_registers() {
    // voltage 12000 = 0x2EE0, shunt 5000 = 0x1388, current -150 = 0xFF6A,
    // power 4096 = 0x1000, each low byte first.
    let buf = [0xE0u8, 0x2E, 0x88, 0x13, 0x6A, 0xFF, 0x00, 0x10];
    let rep = Ina219Report::decode(&buf).unwrap();
    assert_eq!(rep.voltage, 12000);
    assert_eq!(rep.shunt_voltage, 5000);
    assert_eq!(rep.current, -150);
    assert_eq!(rep.power, 4096);
}

#[test]
fn decode_matches_what_the_wire_format_serializes() {
    let fields: (u16, i16, i16, i16) = (513, -2, 300, -30000);
    let mut buf = [0u8; REPORT_LEN];
    let used = ssmarshal::serialize(&mut buf, &fields).unwrap();
    assert_eq!(used, REPORT_LEN);
    let rep = Ina219Report::decode(&buf).unwrap();
    assert_eq!(rep.voltage, 513);
    assert_eq!(rep.shunt_voltage, -2);
    assert_eq!(rep.current, 300);
    assert_eq!(rep.power, -30000);
}

#[test]
fn decode_and_convert_are_deterministic() {
    let buf = [0x12u8, 0x34, 0x56, 0x78, 0x9A, 0xBC, 0xDE, 0xF0];
    let first = Ina219Report::decode(&buf).unwrap();
    let second = Ina219Report::decode(&buf).unwrap();
    assert_eq!(first, second);
    assert_eq!(first.to_result(), second.to_result());
}

#[test]
fn convert_scales_voltages_to_volts() {
    let rep = Ina219Report { voltage: 12000, shunt_voltage: 5000, current: 0, power: 0 };
    let res = rep.to_result();
    assert_eq!(reading(res.voltage), 12.0);
    assert_eq!(reading(res.shunt_voltage), 0.05);
}

#[test]
fn convert_passes_current_and_power_through() {
    let rep = Ina219Report { voltage: 0, shunt_voltage: 0, current: -150, power: 4096 };
    let res = rep.to_result();
    assert_eq!(reading(res.current), -150.0);
    assert_eq!(reading(res.power), 4096.0);
}

#[test]
fn convert_voltage_boundaries() {
    let low = Ina219Report { voltage: 0, shunt_voltage: 0, current: 0, power: 0 };
    assert_eq!(reading(low.to_result().voltage), 0.0);
    let high = Ina219Report { voltage: 65535, shunt_voltage: 0, current: 0, power: 0 };
    assert_eq!(reading(high.to_result().voltage), 65.535);
}

#[test]
fn empty_selection_resolves_to_default_with_notice() {
    let (resolved, notice) = no_fields().resolve();
    assert!(notice);
    assert_eq!(
        resolved,
        FieldSelection { voltage: true, shunt_voltage: false, current: true, power: false }
    );
    // The resolved selection never yields an empty record.
    let rep = Ina219Report { voltage: 1000, shunt_voltage: 0, current: 7, power: 0 };
    let fields = select_fields(&rep.to_result(), &resolved);
    let names: Vec<&str> = fields.iter().map(|(n, _)| n.as_str()).collect();
    assert_eq!(names, vec!["current", "voltage"]);
}

#[test]
fn nonempty_selection_resolves_to_itself() {
    let sel = FieldSelection { voltage: false, shunt_voltage: true, current: false, power: false };
    let (resolved, notice) = sel.resolve();
    assert!(!notice);
    assert_eq!(resolved, sel);
}

#[test]
fn all_fields_are_emitted_in_lexicographic_name_order() {
    let rep = Ina219Report { voltage: 2, shunt_voltage: 3, current: 5, power: 7 };
    let fields = select_fields(&rep.to_result(), &all_fields());
    let names: Vec<&str> = fields.iter().map(|(n, _)| n.as_str()).collect();
    assert_eq!(names, vec!["current", "power", "shunt_voltage", "voltage"]);
}

#[test]
fn selected_fields_carry_the_converted_values() {
    let rep = Ina219Report { voltage: 12000, shunt_voltage: 5000, current: -150, power: 4096 };
    let fields = select_fields(&rep.to_result(), &all_fields());
    assert_eq!(
        fields,
        vec![
            (FieldName::Current, -150 * SCALE),
            (FieldName::Power, 4096 * SCALE),
            (FieldName::ShuntVoltage, 5000),
            (FieldName::Voltage, 1_200_000),
        ]
    );
}

#[test]
fn short_buffer_fails_without_a_record() {
    let buf = [0u8; 7];
    match process_report(&buf, &all_fields()) {
        Err(DecodeError::WrongLength { actual }) => assert_eq!(actual, 7),
        other => panic!("expected a length error, got {:?}", other),
    }
}

#[test]
fn long_buffer_fails_without_a_record() {
    let buf = [0u8; 9];
    match process_report(&buf, &all_fields()) {
        Err(DecodeError::WrongLength { actual }) => assert_eq!(actual, 9),
        other => panic!("expected a length error, got {:?}", other),
    }
}

#[test]
fn process_report_emits_one_record_per_valid_buffer() {
    let buf = [0xE0u8, 0x2E, 0x88, 0x13, 0x6A, 0xFF, 0x00, 0x10];
    let sel = FieldSelection { voltage: true, shunt_voltage: false, current: true, power: false };
    let fields = process_report(&buf, &sel).unwrap();
    assert_eq!(fields, vec![(FieldName::Current, -150 * SCALE), (FieldName::Voltage, 1_200_000)]);
}
