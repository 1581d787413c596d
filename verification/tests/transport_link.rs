use thermal_calibrator::serial::{
    start_stream_request, stop_stream_request, LinkError, PortEntry, SerialDevice, UsbId, FLUKE_BAUD,
    FLUKE_PID, FLUKE_VID, READ_TIMEOUT_MS, SETTLE_DELAY_MS,
};
use thermal_calibrator::text::{hex4, is_two_decimals, trim, white_space};

fn usb(name: &str, vid: u16, pid: u16) -> PortEntry {
    PortEntry { port_name: name.to_string(), usb: Some(UsbId { vid, pid }) }
}

fn plain(name: &str) -> PortEntry {
    PortEntry { port_name: name.to_string(), usb: None }
}

#[test]
fn link_constants() {
    assert_eq!(READ_TIMEOUT_MS, 1000);
    assert_eq!(SETTLE_DELAY_MS, 100);
    assert_eq!((FLUKE_VID, FLUKE_PID, FLUKE_BAUD), (0x0403, 0x6001, 9600));
}

#[test]
fn open_by_ids_takes_the_first_match() {
    let ports = vec![
        plain("/dev/ttyS0"),
        usb("/dev/ttyUSB0", 0x0403, 0x6001),
        usb("/dev/ttyUSB1", 0x10c4, 0xea60),
        usb("/dev/ttyUSB2", 0x10c4, 0xea60),
    ];
    let link = SerialDevice::open_by_vid_pid(&ports, 0x10c4, 0xea60, 115200, 7).unwrap();
    assert_eq!(
        link,
        SerialDevice {
            port_name: "/dev/ttyUSB1".to_string(),
            baud: 115200,
            timeout_ms: 1000,
            local_id: 7,
            extended_uid: 0x10c4ea60,
        }
    );
}

#[test]
fn open_by_ids_needs_both_ids() {
    let ports = vec![usb("a", 0x10c4, 0x0001), usb("b", 0x0001, 0xea60), plain("c")];
    assert_eq!(
        SerialDevice::open_by_vid_pid(&ports, 0x10c4, 0xea60, 115200, 0),
        Err(LinkError::DeviceNotFound { vid: 0x10c4, pid: 0xea60 })
    );
}

#[test]
fn open_by_ids_on_no_ports_finds_nothing() {
    assert_eq!(
        SerialDevice::open_by_vid_pid(&vec![], 1, 2, 9600, 0),
        Err(LinkError::DeviceNotFound { vid: 1, pid: 2 })
    );
}

#[test]
fn identifier_is_made_of_both_ids() {
    let ports = vec![usb("p", 0xFFFF, 0xFFFF), usb("q", 0x0000, 0x0001)];
    assert_eq!(SerialDevice::open_by_vid_pid(&ports, 0xFFFF, 0xFFFF, 1, 0).unwrap().extended_uid, 0xFFFF_FFFF);
    assert_eq!(SerialDevice::open_by_vid_pid(&ports, 0, 1, 1, 0).unwrap().extended_uid, 1);
}

#[test]
fn open_fluke_uses_the_bath_ids() {
    let ports = vec![usb("/dev/ttyUSB1", 0x10c4, 0xea60), usb("/dev/ttyUSB0", 0x0403, 0x6001)];
    let link = SerialDevice::open_fluke(&ports).unwrap();
    assert_eq!(link.port_name, "/dev/ttyUSB0");
    assert_eq!(link.baud, 9600);
    assert_eq!(link.local_id, 0);
    assert_eq!(link.extended_uid, 0x0403_6001);
    assert_eq!(link.timeout_ms, 1000);
}

#[test]
fn open_fluke_without_the_bath_finds_nothing() {
    let ports = vec![usb("/dev/ttyUSB1", 0x10c4, 0xea60)];
    assert_eq!(SerialDevice::open_fluke(&ports), Err(LinkError::DeviceNotFound { vid: 0x0403, pid: 0x6001 }));
}

#[test]
fn new_link_has_the_read_timeout() {
    let link = SerialDevice::new("COM3", 57600, 42, 9);
    assert_eq!(link.port_name, "COM3");
    assert_eq!(link.baud, 57600);
    assert_eq!(link.extended_uid, 42);
    assert_eq!(link.local_id, 9);
    assert_eq!(link.timeout_ms, READ_TIMEOUT_MS);
}

#[test]
fn duplicate_is_equal() {
    let link = SerialDevice::new("COM3", 57600, 42, 9);
    assert_eq!(link.duplicate(), link);
}

#[test]
fn query_ends_with_carriage_return() {
    let link = SerialDevice::new("p", 9600, 0, 0);
    assert_eq!(link.query("OUTP:STAT 1"), "OUTP:STAT 1\r");
    assert_eq!(link.query(""), "\r");
    assert_eq!(link.query("A\r"), "A\r\r");
}

#[test]
fn response_is_the_trimmed_line() {
    assert_eq!(SerialDevice::response(Some(" 1\r\n")), Some("1".to_string()));
    assert_eq!(SerialDevice::response(Some("23.456\r\n")), Some("23.456".to_string()));
    assert_eq!(SerialDevice::response(Some("")), Some(String::new()));
    assert_eq!(SerialDevice::response(Some(" \t\r\n")), Some(String::new()));
    assert_eq!(SerialDevice::response(None), None);
}

#[test]
fn trim_keeps_inner_white_space() {
    assert_eq!(trim("  a b\tc \n"), "a b\tc");
    assert_eq!(trim("x"), "x");
    assert_eq!(trim("\u{a0}\u{3000}1\u{2003}\u{85}"), "1");
    assert_eq!(trim("é \u{1680}"), "é");
}

#[test]
fn trim_agrees_with_the_standard_library() {
    let samples = [
        "", " ", "1", " 1", "1 ", "\r\n", "\t+1.5E3\r\n", "a\u{200b}", "\u{200b} a", "\u{feff}x ",
        "\u{2028}\u{2029}z\u{202f}\u{205f}", "\u{180e}y\u{180e}", "  \u{b}\u{c}q\u{1c}",
    ];
    for s in samples {
        assert_eq!(trim(s), s.trim());
    }
}

#[test]
fn white_space_agrees_with_the_standard_library() {
    for code in 0..=0x10FFFFu32 {
        if let Some(c) = char::from_u32(code) {
            assert_eq!(white_space(c), c.is_whitespace(), "U+{:04X}", code);
        }
    }
}

#[test]
fn start_request_layout() {
    let link = SerialDevice::new("p", 115200, 0, 0);
    assert_eq!(link.start_mu_calibration(0x04, 100, 128), vec![0x00, 0xF1, 0x04, 0x00, 0x64, 0x80]);
    let other = SerialDevice::new("p", 115200, 0, 0x2A);
    assert_eq!(other.start_mu_calibration(0x01, 0x1234, 0xFF), vec![0x2A, 0xF1, 0x01, 0x12, 0x34, 0xFF]);
    assert_eq!(start_stream_request(3, 2, 0xFFFF, 0), vec![3, 0xF1, 2, 0xFF, 0xFF, 0]);
    assert_eq!(start_stream_request(3, 2, 256, 0), vec![3, 0xF1, 2, 1, 0, 0]);
}

#[test]
fn stop_request_layout() {
    let link = SerialDevice::new("p", 115200, 0, 0x33);
    assert_eq!(link.stop_mu_calibration(0x01, 0x04), vec![0x01, 0xF2, 0x04]);
    assert_eq!(stop_stream_request(9, 8), vec![9, 0xF2, 8]);
}

#[test]
fn handshake_request_layout() {
    assert_eq!(SerialDevice::handshake_request(0x00), vec![0x00, 0x01, 0x00]);
    assert_eq!(SerialDevice::handshake_request(0x7E), vec![0x00, 0x01, 0x7E]);
}

#[test]
fn handshake_reply_sets_the_identifier() {
    let mut link = SerialDevice::new("p", 115200, 0x10c4ea60, 5);
    let reply = link.connect_mu(Some([0x12, 0x34, 0x56, 0x78]));
    assert_eq!(reply, Ok(vec![0x12, 0x34, 0x56, 0x78]));
    assert_eq!(link.extended_uid, 0x1234_5678);
    assert_eq!(link.local_id, 5);
    assert_eq!(link.port_name, "p");
    assert_eq!(link.baud, 115200);
}

#[test]
fn handshake_reply_extremes() {
    let mut link = SerialDevice::new("p", 115200, 1, 0);
    assert_eq!(link.connect_mu(Some([0xFF, 0xFF, 0xFF, 0xFF])), Ok(vec![0xFF; 4]));
    assert_eq!(link.extended_uid, u32::MAX);
    assert_eq!(link.connect_mu(Some([0, 0, 0, 1])), Ok(vec![0, 0, 0, 1]));
    assert_eq!(link.extended_uid, 1);
    assert_eq!(link.connect_mu(Some([1, 0, 0, 0])), Ok(vec![1, 0, 0, 0]));
    assert_eq!(link.extended_uid, 0x0100_0000);
}

#[test]
fn missing_handshake_reply_times_out() {
    let mut link = SerialDevice::new("p", 115200, 0x10c4ea60, 5);
    assert_eq!(link.connect_mu(None), Err(LinkError::HandshakeTimeout));
    assert_eq!(link, SerialDevice::new("p", 115200, 0x10c4ea60, 5));
}

#[test]
fn read_request_asks_for_what_is_buffered() {
    assert_eq!(SerialDevice::read_request(Some(5)), Some(5));
    assert_eq!(SerialDevice::read_request(Some(u32::MAX)), Some(u32::MAX as usize));
    assert_eq!(SerialDevice::read_request(Some(0)), None);
    assert_eq!(SerialDevice::read_request(None), None);
}

#[test]
fn failed_read_is_an_empty_batch() {
    assert_eq!(SerialDevice::read_available(Some(vec![1, 2, 3])), vec![1, 2, 3]);
    assert_eq!(SerialDevice::read_available(Some(vec![])), Vec::<u8>::new());
    assert_eq!(SerialDevice::read_available(None), Vec::<u8>::new());
}

#[test]
fn every_error_has_its_own_message() {
    let errors = [
        LinkError::DeviceNotFound { vid: 0x10c4, pid: 0xea60 },
        LinkError::HardwareError,
        LinkError::HandshakeTimeout,
        LinkError::ParseError,
        LinkError::LockUnavailable,
    ];
    for (i, a) in errors.iter().enumerate() {
        assert!(!a.message().is_empty());
        for b in errors.iter().skip(i + 1) {
            assert_ne!(a.message(), b.message());
        }
    }
    assert_eq!(errors[0].message(), "Dispositivo non trovato (VID: 10c4 PID: ea60)");
    assert_eq!(errors[1].message(), "Errore hardware");
    assert_eq!(errors[2].message(), "MU non ha risposto all'handshake");
    assert_eq!(errors[4].message(), "Lock failed");
}

#[test]
fn not_found_message_writes_ids_as_four_hex_digits() {
    assert_eq!(
        LinkError::DeviceNotFound { vid: 0x0403, pid: 0x6001 }.message(),
        format!("Dispositivo non trovato (VID: {:04x} PID: {:04x})", 0x0403, 0x6001)
    );
    assert_eq!(
        LinkError::DeviceNotFound { vid: 0, pid: 0xFFFF }.message(),
        "Dispositivo non trovato (VID: 0000 PID: ffff)"
    );
    assert_eq!(
        LinkError::DeviceNotFound { vid: 0x00AB, pid: 0xC0D }.message(),
        "Dispositivo non trovato (VID: 00ab PID: 0c0d)"
    );
}

#[test]
fn hex4_agrees_with_the_standard_library() {
    for value in 0..=u16::MAX {
        assert_eq!(hex4(value), format!("{:04x}", value));
    }
}

#[test]
fn two_decimals_are_told_from_other_texts() {
    for good in ["0.00", "60.00", "-12.35", "-0.00", "123456.78", "3.40"] {
        assert!(is_two_decimals(good), "{}", good);
    }
    for bad in [
        "", "-", ".00", "-.00", "60", "60.", "60.0", "60.000", "6a.00", "60,00", "+60.00", "NaN", "inf",
        "-inf", " 60.00", "60.00 ", "60.0a", "6.0.00", "--6.00", "1e3.00", "１.00",
    ] {
        assert!(!is_two_decimals(bad), "{}", bad);
    }
}

#[test]
fn every_finite_number_formats_to_two_decimals() {
    for value in [0.0f32, -0.0, 60.0, -12.345, 0.125, 1.0e9, -3.999, f32::MAX, f32::MIN, f32::MIN_POSITIVE] {
        assert!(is_two_decimals(&format!("{:.2}", value)), "{}", value);
    }
    for value in [f32::NAN, f32::INFINITY, f32::NEG_INFINITY] {
        assert!(!is_two_decimals(&format!("{:.2}", value)), "{}", value);
    }
}
