use razer_battery::orchestrator::{battery_percent, interpret, is_charging, render, BatteryReading};
use razer_battery::protocol::{
    RazerCommand, COMMAND_CLASS_MISC, PID_BASILISK_V3_WIRED, PID_BASILISK_V3_WIRELESS, RAZER_VID,
    REPORT_INDEX, TRANSACTION_ID, WIRE_SIZE,
};
use razer_battery::report::{InvalidReportStatusError, RazerReport, ReportParseError, ReportStatus};
use razer_battery::session::{find_device, DeviceEntry, Transport};
use razer_battery::transaction::{parse_response, request_buffer, response_buffer, ResponseError};

fn sample_report(reserved: u8) -> RazerReport {
    let mut arguments = vec![0u8; 80];
    for (i, a) in arguments.iter_mut().enumerate() {
        *a = (i as u8).wrapping_mul(37).wrapping_add(5);
    }
    RazerReport {
        status: ReportStatus::Success,
        transaction_id: 0x1F,
        remaining_packets: 0x1234,
        protocol_type: 3,
        data_size: 9,
        command_class: 0x07,
        command_id: 0x84,
        arguments,
        crc: 0xEE,
        reserved,
    }
}

/// A response as the device would write it: index byte, then a report.
fn response_wire(status: u8, transaction_id: u8, result: u8) -> Vec<u8> {
    let mut buf = vec![0u8; WIRE_SIZE];
    buf[0] = REPORT_INDEX;
    buf[1] = status;
    buf[2] = transaction_id;
    buf[7] = COMMAND_CLASS_MISC;
    buf[1 + 8 + 1] = result;
    buf
}

fn text(reading: BatteryReading) -> String {
    String::from_utf8(render(reading)).unwrap()
}

fn run(battery: &[u8], charging: &[u8]) -> Result<String, ResponseError> {
    let b = parse_response(battery, WIRE_SIZE)?;
    let c = parse_response(charging, WIRE_SIZE)?;
    Ok(text(interpret(&b, &c)))
}

#[test]
fn status_bytes_round_trip() {
    let all = [
        ReportStatus::NewCommand,
        ReportStatus::Busy,
        ReportStatus::Success,
        ReportStatus::Failure,
        ReportStatus::Timeout,
        ReportStatus::Unsupported,
    ];
    for (i, s) in all.iter().enumerate() {
        assert_eq!(s.to_byte(), i as u8);
        assert_eq!(ReportStatus::try_from(i as u8), Ok(*s));
    }
    assert_eq!(
        ReportStatus::try_from(0x06),
        Err(InvalidReportStatusError { invalid_byte: 0x06 })
    );
    assert_eq!(
        ReportStatus::try_from(0xFF),
        Err(InvalidReportStatusError { invalid_byte: 0xFF })
    );
}

#[test]
fn encode_layout() {
    let r = sample_report(0x42);
    let bytes = r.to_bytes();
    assert_eq!(bytes.len(), 90);
    assert_eq!(bytes[0], 0x02);
    assert_eq!(bytes[1], 0x1F);
    assert_eq!(bytes[2], 0x12);
    assert_eq!(bytes[3], 0x34);
    assert_eq!(&bytes[4..8], &[3, 9, 0x07, 0x84]);
    assert_eq!(&bytes[8..88], r.arguments.as_slice());
    let mut x = 0u8;
    for b in &bytes[2..88] {
        x ^= b;
    }
    assert_eq!(bytes[88], x);
    assert_eq!(bytes[89], 0x42);
}

#[test]
fn decode_of_encode_keeps_fields() {
    let r = sample_report(7);
    let bytes = r.to_bytes();
    let d = RazerReport::try_from(bytes.as_slice()).unwrap();
    assert_eq!(d.status, r.status);
    assert_eq!(d.transaction_id, r.transaction_id);
    assert_eq!(d.remaining_packets, r.remaining_packets);
    assert_eq!(d.protocol_type, r.protocol_type);
    assert_eq!(d.data_size, r.data_size);
    assert_eq!(d.command_class, r.command_class);
    assert_eq!(d.command_id, r.command_id);
    assert_eq!(d.arguments, r.arguments);
    assert_eq!(d.reserved, r.reserved);
    assert_eq!(d.crc, bytes[88]);
    assert_eq!(d.to_bytes(), bytes);
}

#[test]
fn checksum_ignores_reserved() {
    let a = sample_report(0).to_bytes();
    let b = sample_report(0xAB).to_bytes();
    assert_eq!(a[88], b[88]);
    assert_eq!(&a[..89], &b[..89]);
    assert_ne!(a[89], b[89]);
}

#[test]
fn decode_rejects_status_six() {
    let mut bytes = sample_report(0).to_bytes();
    bytes[0] = 0x06;
    assert_eq!(
        RazerReport::try_from(bytes.as_slice()).unwrap_err(),
        ReportParseError::InvalidStatus { invalid_byte: 0x06 }
    );
}

#[test]
fn decode_rejects_wrong_sizes() {
    for n in [0usize, 1, 89, 91, 200] {
        let bytes = vec![0u8; n];
        assert_eq!(
            RazerReport::try_from(bytes.as_slice()).unwrap_err(),
            ReportParseError::WrongSize { actual: n }
        );
    }
    assert!(RazerReport::try_from(vec![0u8; 90].as_slice()).is_ok());
}

#[test]
fn decode_keeps_a_wrong_checksum() {
    let mut bytes = sample_report(0).to_bytes();
    bytes[88] ^= 0xFF;
    let d = RazerReport::try_from(bytes.as_slice()).unwrap();
    assert_eq!(d.crc, bytes[88]);
}

#[test]
fn request_buffers() {
    let b = request_buffer(RazerCommand::GetBattery);
    assert_eq!(b.len(), 91);
    assert_eq!(&b[..9], &[REPORT_INDEX, 0x00, TRANSACTION_ID, 0, 0, 0, 0, 0x07, 0x80]);
    assert!(b[9..89].iter().all(|x| *x == 0));
    assert_eq!(b[89], 0x07 ^ 0x80);
    assert_eq!(b[90], 0);
    let c = request_buffer(RazerCommand::GetChargingStatus);
    assert_eq!(c[8], 0x84);
    assert_eq!(c[89], 0x07 ^ 0x84);
    let r = RazerReport::request(RazerCommand::GetBattery);
    assert_eq!(r.status, ReportStatus::NewCommand);
    assert_eq!(r.arguments, vec![0u8; 80]);
    assert_eq!(RazerCommand::GetBattery.id(), 0x80);
    assert_eq!(RazerCommand::GetChargingStatus.id(), 0x84);
}

#[test]
fn response_buffer_is_blank() {
    let b = response_buffer();
    assert_eq!(b.len(), 91);
    assert_eq!(b[0], REPORT_INDEX);
    assert!(b[1..].iter().all(|x| *x == 0));
}

#[test]
fn percent_examples() {
    assert_eq!(battery_percent(255), 100);
    assert_eq!(battery_percent(0), 0);
    assert_eq!(battery_percent(128), 50);
    assert_eq!(battery_percent(204), 80);
    assert_eq!(battery_percent(1), 0);
    assert_eq!(battery_percent(3), 1);
}

#[test]
fn percent_truncates_like_a_float_cast() {
    for raw in 0..=255u8 {
        let expected = (raw as f32 / 255.0 * 100.0) as u8;
        assert_eq!(battery_percent(raw), expected, "raw {}", raw);
    }
}

#[test]
fn charging_flag() {
    assert!(is_charging(1));
    assert!(!is_charging(0));
    assert!(!is_charging(2));
    assert!(!is_charging(0xFF));
}

#[test]
fn report_accessors() {
    let b = parse_response(&response_wire(2, TRANSACTION_ID, 204), WIRE_SIZE).unwrap();
    assert_eq!(b.battery_raw(), 204);
    assert_eq!(b.charging_raw(), 204);
}

#[test]
fn short_response() {
    let buf = response_wire(2, TRANSACTION_ID, 0);
    assert_eq!(parse_response(&buf, 89).unwrap_err(), ResponseError::ShortResponse);
    assert_eq!(parse_response(&buf, 0).unwrap_err(), ResponseError::ShortResponse);
    assert!(parse_response(&buf, 90).is_ok());
}

#[test]
fn malformed_response() {
    let buf = response_wire(6, TRANSACTION_ID, 0);
    assert_eq!(
        parse_response(&buf, WIRE_SIZE).unwrap_err(),
        ResponseError::MalformedReport(ReportParseError::InvalidStatus { invalid_byte: 6 })
    );
}

#[test]
fn timeout_on_battery_is_unavailable() {
    let out = run(&response_wire(4, TRANSACTION_ID, 204), &response_wire(2, TRANSACTION_ID, 1));
    assert_eq!(out.unwrap(), "N/A");
}

#[test]
fn timeout_on_charging_is_unavailable() {
    let out = run(&response_wire(2, TRANSACTION_ID, 204), &response_wire(4, TRANSACTION_ID, 1));
    assert_eq!(out.unwrap(), "N/A");
}

#[test]
fn transaction_id_mismatch_fails() {
    let out = run(&response_wire(2, 0x20, 204), &response_wire(2, TRANSACTION_ID, 1));
    assert_eq!(out.unwrap_err(), ResponseError::TransactionMismatch);
    let out = run(&response_wire(2, TRANSACTION_ID, 204), &response_wire(4, 0x00, 1));
    assert_eq!(out.unwrap_err(), ResponseError::TransactionMismatch);
}

#[test]
fn no_device_is_unavailable() {
    let devices = [
        DeviceEntry { vendor_id: 0x046D, product_id: PID_BASILISK_V3_WIRED, interface_number: 0 },
        DeviceEntry { vendor_id: RAZER_VID, product_id: 0x0099, interface_number: 0 },
        DeviceEntry { vendor_id: RAZER_VID, product_id: PID_BASILISK_V3_WIRED, interface_number: 1 },
    ];
    for t in Transport::candidates() {
        assert_eq!(find_device(&devices, t.product_id()), None);
    }
    assert_eq!(find_device(&[], PID_BASILISK_V3_WIRED), None);
    assert_eq!(text(BatteryReading::Unavailable), "N/A");
}

#[test]
fn find_device_takes_first_match() {
    let devices = [
        DeviceEntry { vendor_id: RAZER_VID, product_id: PID_BASILISK_V3_WIRELESS, interface_number: 1 },
        DeviceEntry { vendor_id: RAZER_VID, product_id: PID_BASILISK_V3_WIRELESS, interface_number: 0 },
        DeviceEntry { vendor_id: RAZER_VID, product_id: PID_BASILISK_V3_WIRED, interface_number: 0 },
        DeviceEntry { vendor_id: RAZER_VID, product_id: PID_BASILISK_V3_WIRED, interface_number: 0 },
    ];
    assert_eq!(find_device(&devices, PID_BASILISK_V3_WIRED), Some(2));
    assert_eq!(find_device(&devices, PID_BASILISK_V3_WIRELESS), Some(1));
}

#[test]
fn candidates_prefer_the_cable() {
    assert_eq!(Transport::candidates(), vec![Transport::Wired, Transport::Wireless]);
    assert_eq!(Transport::Wired.product_id(), 0x00AA);
    assert_eq!(Transport::Wireless.product_id(), 0x00AB);
}

#[test]
fn full_happy_path() {
    let out = run(&response_wire(2, TRANSACTION_ID, 204), &response_wire(2, TRANSACTION_ID, 1));
    assert_eq!(out.unwrap(), "80% \u{26A1}");
}

#[test]
fn not_charging_has_no_suffix() {
    let out = run(&response_wire(2, TRANSACTION_ID, 255), &response_wire(2, TRANSACTION_ID, 0));
    assert_eq!(out.unwrap(), "100%");
    let out = run(&response_wire(2, TRANSACTION_ID, 10), &response_wire(2, TRANSACTION_ID, 2));
    assert_eq!(out.unwrap(), "3%");
}

#[test]
fn render_examples() {
    assert_eq!(text(BatteryReading::Level { percent: 0, charging: false }), "0%");
    assert_eq!(text(BatteryReading::Level { percent: 9, charging: true }), "9% \u{26A1}");
    assert_eq!(text(BatteryReading::Level { percent: 45, charging: false }), "45%");
    assert_eq!(text(BatteryReading::Level { percent: 100, charging: true }), "100% \u{26A1}");
}
