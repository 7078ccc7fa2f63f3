use razerx::consts::VARSTORE;
use razerx::error::DriverError;
use razerx::report::{CommandId, RazerReport, TransactionId};
use razerx::response::{
    parse_battery_level, parse_dpi_stages, parse_dpi_xy, parse_led_rgb, parse_matrix_brightness,
    parse_poll_rate, parse_status, CommandStatus,
};
use razerx::settings::DpiStage;

fn response_with_args(args: &[u8]) -> Vec<u8> {
    let mut r = vec![0u8; 90];
    r[0] = 0x02;
    r[8..8 + args.len()].copy_from_slice(args);
    r
}

#[test]
fn transaction_id_packs_device_and_id() {
    let t = TransactionId::new(7, 3);
    assert_eq!(t.raw(), 0x1f);
    assert_eq!(t.device(), 7);
    assert_eq!(t.id(), 3);
    let t = TransactionId::new(1, 31);
    assert_eq!(t.raw(), 0xf9);
    assert_eq!(t.device(), 1);
    assert_eq!(t.id(), 31);
}

#[test]
fn command_id_packs_direction_and_number() {
    let c = CommandId::new(1, 0x05);
    assert_eq!(c.raw(), 0x85);
    assert_eq!(c.direction(), 1);
    assert_eq!(c.id(), 0x05);
    let c = CommandId::new(0, 0x7f);
    assert_eq!(c.raw(), 0x7f);
    assert_eq!(c.direction(), 0);
}

#[test]
fn firmware_request_bytes_and_checksum() {
    let mut r = RazerReport::get_firmware_report();
    assert_eq!(r.crc, 0);
    r.finalize();
    // data size 0x02 ^ command id 0x81
    assert_eq!(r.crc, 0x83);
    let bytes = r.to_hid_bytes();
    assert_eq!(bytes.len(), 90);
    assert_eq!(&bytes[0..8], &[0x00, 0x1f, 0x00, 0x00, 0x00, 0x02, 0x00, 0x81]);
    assert_eq!(bytes[88], 0x83);
    assert_eq!(bytes[89], 0x00);
}

#[test]
fn finalized_frame_folds_to_zero() {
    let mut r = RazerReport::set_dpi_xy_report(1234, 5678).unwrap();
    r.finalize();
    let bytes = r.to_hid_bytes();
    let without = bytes[2..88].iter().fold(0u8, |a, b| a ^ b);
    let with = bytes[2..89].iter().fold(0u8, |a, b| a ^ b);
    assert_eq!(without, r.crc);
    assert_eq!(with, 0);
    let raw = r.raw_bytes();
    assert_eq!(&raw[..], &bytes[0..88]);
}

#[test]
fn finalize_changes_only_the_checksum() {
    let r0 = RazerReport::set_matrix_brightness_report(77);
    let mut r = r0;
    r.finalize();
    assert_eq!(&r.to_hid_bytes()[0..88], &r0.to_hid_bytes()[0..88]);
    assert_eq!(r.arguments[0..3], [0x01, 0x00, 77]);
}

#[test]
fn poll_rate_round_trip() {
    for rate in [1000u16, 500, 125] {
        let mut r = RazerReport::set_poll_rate_report(rate).unwrap();
        r.finalize();
        assert_eq!(parse_poll_rate(&r.to_hid_bytes()).unwrap(), rate);
    }
    assert_eq!(RazerReport::set_poll_rate_report(1000).unwrap().arguments[0], 0x01);
    assert_eq!(RazerReport::set_poll_rate_report(500).unwrap().arguments[0], 0x02);
    assert_eq!(RazerReport::set_poll_rate_report(125).unwrap().arguments[0], 0x08);
}

#[test]
fn unknown_poll_rate_is_a_decode_error() {
    for code in [0x00u8, 0x03, 0x04, 0x10, 0xff] {
        let resp = response_with_args(&[code]);
        assert!(matches!(parse_poll_rate(&resp), Err(DriverError::Decode(_))));
    }
}

#[test]
fn unsupported_poll_rate_request_is_refused() {
    for rate in [0u16, 250, 999, 2000, 8000] {
        assert!(matches!(RazerReport::set_poll_rate_report(rate), Err(DriverError::InvalidParameter(_))));
    }
}

#[test]
fn dpi_bounds() {
    for (x, y) in [(99u16, 800u16), (800, 99), (35001, 800), (800, 35001), (0, 0), (65535, 100)] {
        assert!(matches!(RazerReport::set_dpi_xy_report(x, y), Err(DriverError::InvalidParameter(_))));
    }
    for (x, y) in [(100u16, 100u16), (35000, 35000), (100, 35000), (35000, 100), (1600, 800)] {
        let r = RazerReport::set_dpi_xy_report(x, y).unwrap();
        assert_eq!(parse_dpi_xy(&r.to_hid_bytes()).unwrap(), (x, y));
    }
    let r = RazerReport::set_dpi_xy_report(35000, 100).unwrap();
    assert_eq!(r.arguments[0..7], [VARSTORE, 0x88, 0xB8, 0x00, 0x64, 0x00, 0x00]);
    assert_eq!((r.command_class, r.command_id.raw(), r.data_size), (0x04, 0x05, 0x07));
}

fn stage(stage: u8, dpi_x: u16, dpi_y: u16, active: bool) -> DpiStage {
    DpiStage { dpi_x, dpi_y, stage, active }
}

#[test]
fn dpi_stages_round_trip() {
    for n in 1..=5usize {
        for a in 0..n {
            let stages: Vec<DpiStage> = (0..n)
                .map(|i| stage(i as u8 + 1, 400 * (i as u16 + 1), 300 * (i as u16 + 1), i == a))
                .collect();
            let mut r = RazerReport::set_dpi_stages_report(&stages).unwrap();
            r.finalize();
            let decoded = parse_dpi_stages(&r.to_hid_bytes()).unwrap();
            assert_eq!(decoded, stages);
        }
    }
}

#[test]
fn dpi_stages_wire_layout() {
    let stages = vec![stage(1, 800, 800, false), stage(2, 35000, 100, true)];
    let r = RazerReport::set_dpi_stages_report(&stages).unwrap();
    assert_eq!(r.arguments[0..3], [VARSTORE, 2, 2]);
    assert_eq!(r.arguments[3..10], [1, 0x03, 0x20, 0x03, 0x20, 0, 0]);
    assert_eq!(r.arguments[10..17], [2, 0x88, 0xB8, 0x00, 0x64, 0, 0]);
    assert!(r.arguments[17..].iter().all(|b| *b == 0));
    assert_eq!(r.data_size, 0x26);
}

#[test]
fn dpi_stages_need_exactly_one_active() {
    let none = vec![stage(1, 800, 800, false), stage(2, 1600, 1600, false)];
    assert!(matches!(RazerReport::set_dpi_stages_report(&none), Err(DriverError::InvalidParameter(_))));
    let two = vec![stage(1, 800, 800, true), stage(2, 1600, 1600, true)];
    assert!(matches!(RazerReport::set_dpi_stages_report(&two), Err(DriverError::InvalidParameter(_))));
}

#[test]
fn dpi_stages_count_range_and_numbers() {
    assert!(matches!(RazerReport::set_dpi_stages_report(&[]), Err(DriverError::InvalidParameter(_))));
    let six: Vec<DpiStage> = (0..6).map(|i| stage(i + 1, 800, 800, i == 0)).collect();
    assert!(matches!(RazerReport::set_dpi_stages_report(&six), Err(DriverError::InvalidParameter(_))));
    let low = vec![stage(1, 99, 800, true)];
    assert!(matches!(RazerReport::set_dpi_stages_report(&low), Err(DriverError::InvalidParameter(_))));
    let zero = vec![stage(0, 800, 800, true)];
    assert!(matches!(RazerReport::set_dpi_stages_report(&zero), Err(DriverError::InvalidParameter(_))));
    let dup = vec![stage(1, 800, 800, true), stage(1, 1600, 1600, false)];
    assert!(matches!(RazerReport::set_dpi_stages_report(&dup), Err(DriverError::InvalidParameter(_))));
}

#[test]
fn battery_scaling() {
    assert_eq!(parse_battery_level(&response_with_args(&[0, 255])).unwrap(), 100);
    assert_eq!(parse_battery_level(&response_with_args(&[0, 0])).unwrap(), 0);
    assert_eq!(parse_battery_level(&response_with_args(&[0, 128])).unwrap(), 50);
    assert_eq!(parse_battery_level(&response_with_args(&[0, 254])).unwrap(), 99);
    assert!(matches!(parse_battery_level(&[0u8; 9]), Err(DriverError::Decode(_))));
}

#[test]
fn short_responses_are_decode_errors() {
    for len in 0..11 {
        let resp = vec![0u8; len];
        assert!(matches!(parse_led_rgb(&resp), Err(DriverError::Decode(_))));
        assert!(matches!(parse_dpi_stages(&resp), Err(DriverError::Decode(_))));
    }
    for len in 0..13 {
        let resp = vec![0u8; len];
        assert!(matches!(parse_dpi_xy(&resp), Err(DriverError::Decode(_))));
    }
    assert!(matches!(parse_matrix_brightness(&[0u8; 8]), Err(DriverError::Decode(_))));
    assert!(matches!(parse_status(&[]), Err(DriverError::Decode(_))));
    assert!(matches!(RazerReport::from_bytes(&[0u8; 89]), Err(DriverError::Decode(_))));
}

#[test]
fn truncated_stage_response_keeps_what_fits() {
    let stages = vec![stage(1, 800, 800, false), stage(2, 1600, 1600, true), stage(3, 3200, 3200, false)];
    let r = RazerReport::set_dpi_stages_report(&stages).unwrap();
    let bytes = r.to_hid_bytes();
    // record i needs argument bytes up to 8 + 7 * i, that is 16 + 7 * i response bytes
    assert_eq!(parse_dpi_stages(&bytes[..16]).unwrap(), vec![stages[0]]);
    assert_eq!(parse_dpi_stages(&bytes[..22]).unwrap(), vec![stages[0]]);
    assert_eq!(parse_dpi_stages(&bytes[..23]).unwrap(), vec![stages[0], stages[1]]);
    assert_eq!(parse_dpi_stages(&bytes[..15]).unwrap(), vec![]);
    assert_eq!(parse_dpi_stages(&bytes).unwrap(), stages);
}

#[test]
fn led_rgb_and_brightness() {
    assert_eq!(parse_led_rgb(&response_with_args(&[10, 20, 30])).unwrap(), [10, 20, 30]);
    assert_eq!(parse_matrix_brightness(&response_with_args(&[42])).unwrap(), 42);
    let r = RazerReport::set_matrix_effect_static_report([1, 2, 3], 0x05);
    assert_eq!(r.arguments[0..5], [VARSTORE, 0x05, 1, 2, 3]);
    assert_eq!((r.command_class, r.command_id.raw()), (0x0F, 0x06));
    let r = RazerReport::get_led_rgb_report(0x05);
    assert_eq!(r.arguments[0..2], [VARSTORE, 0x05]);
    let r = RazerReport::get_led_brightness_report(0x04);
    assert_eq!(r.arguments[0..2], [VARSTORE, 0x04]);
}

#[test]
fn status_bytes() {
    assert_eq!(parse_status(&[2]).unwrap(), CommandStatus::Successful);
    assert_eq!(parse_status(&[4]).unwrap(), CommandStatus::Timeout);
    assert_eq!(parse_status(&[5]).unwrap(), CommandStatus::NotSupported);
    assert!(matches!(parse_status(&[6]), Err(DriverError::Decode(_))));
}

#[test]
fn frame_decodes_field_by_field() {
    let mut r = RazerReport::set_dpi_xy_report(800, 1600).unwrap();
    r.remaining_packets = 0x0102;
    r.finalize();
    let bytes = r.to_hid_bytes();
    assert_eq!(&bytes[2..4], &[0x01, 0x02]);
    let back = RazerReport::from_bytes(&bytes).unwrap();
    assert_eq!(back.to_hid_bytes(), bytes);
    assert_eq!(back.remaining_packets, 0x0102);
    assert_eq!(back.crc, r.crc);
}

#[test]
fn request_headers() {
    let cases: Vec<(RazerReport, u8, u8, u8)> = vec![
        (RazerReport::get_poll_rate_report(), 0x00, 0x85, 0x01),
        (RazerReport::get_dpi_xy_report(), 0x04, 0x85, 0x07),
        (RazerReport::get_dpi_stages_report(), 0x04, 0x85, 0x26),
        (RazerReport::get_charging_state_report(), 0x07, 0x84, 0x02),
        (RazerReport::get_battery_level_report(), 0x07, 0x80, 0x02),
        (RazerReport::get_matrix_brightness_report(), 0x0F, 0x84, 0x03),
        (RazerReport::get_scroll_smart_reel_report(), 0x02, 0x97, 0x02),
        (RazerReport::get_idle_timeout_report(), 0x07, 0x83, 0x02),
        (RazerReport::get_charge_low_threshold_report(), 0x07, 0x81, 0x01),
        (RazerReport::get_device_mode_report(), 0x00, 0x84, 0x02),
    ];
    for (r, class, id, size) in cases {
        assert_eq!((r.command_class, r.command_id.raw(), r.data_size), (class, id, size));
        assert_eq!((r.status, r.transaction_id.raw(), r.remaining_packets, r.crc), (0, 0x1f, 0, 0));
    }
}

#[test]
fn frames_compare_by_wire_bytes() {
    let mut a = RazerReport::set_dpi_xy_report(800, 1600).unwrap();
    a.finalize();
    let b = RazerReport::from_bytes(&a.to_hid_bytes()).unwrap();
    assert_eq!(a, b);
    let mut c = b;
    c.arguments[79] = 1;
    assert_ne!(a, c);
    let mut d = b;
    d.crc ^= 0xff;
    assert_ne!(a, d);
    assert_ne!(RazerReport::get_poll_rate_report(), RazerReport::get_dpi_xy_report());
}
