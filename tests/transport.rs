use razerx::error::{DriverError, DriverResult};
use razerx::report::RazerReport;
use razerx::response::{parse_poll_rate, parse_status, CommandStatus};
use razerx::retry::{give_up_error, open_outcome_of_errno, OpenOutcome};
use razerx::transport::{
    check_response, exchange_report, parse_hid_id_line, prepare_exchange, Device, UsbDriver,
};

/// A device that answers every request by echoing it with status
/// "successful", or with a response of a chosen length.
struct EchoDevice {
    sent: Vec<Vec<u8>>,
    waits: Vec<u64>,
    answer_len: usize,
}

impl UsbDriver for EchoDevice {
    fn open(_vendor_id: u16, _product_id: u16) -> DriverResult<Self> {
        Ok(EchoDevice { sent: vec![], waits: vec![], answer_len: 90 })
    }

    fn list_devices() -> Vec<Device> {
        vec![]
    }

    fn exchange_feature_report(
        &mut self,
        request: &[u8],
        _index: u16,
        min_wait_us: u64,
        response_length: u16,
    ) -> DriverResult<Vec<u8>> {
        self.sent.push(request.to_vec());
        self.waits.push(min_wait_us);
        let mut resp = request.to_vec();
        resp[0] = 0x02;
        resp.resize(self.answer_len.min(response_length as usize), 0);
        Ok(resp)
    }

    fn close(self) -> DriverResult<()> {
        Ok(())
    }
}

#[test]
fn exchange_finalizes_and_waits() {
    let mut dev = EchoDevice::open(0x1532, 0x00AB).unwrap();
    let mut report = RazerReport::set_poll_rate_report(500).unwrap();
    let resp = exchange_report(&mut dev, &mut report, 0).unwrap();
    assert_eq!(report.crc, 0x01 ^ 0x05 ^ 0x02);
    assert_eq!(dev.sent[0], report.to_hid_bytes());
    assert_eq!(dev.waits, vec![31100]);
    assert_eq!(parse_status(&resp).unwrap(), CommandStatus::Successful);
    assert_eq!(parse_poll_rate(&resp).unwrap(), 500);
    assert!(dev.close().is_ok());
}

#[test]
fn exchange_rejects_short_response() {
    let mut dev = EchoDevice::open(0x1532, 0x00AB).unwrap();
    dev.answer_len = 40;
    let mut report = RazerReport::get_battery_level_report();
    assert!(matches!(exchange_report(&mut dev, &mut report, 0), Err(DriverError::IncompleteTransfer)));
}

#[test]
fn uevent_hid_id() {
    assert_eq!(parse_hid_id_line(b"HID_ID=0003:00001532:000000AB"), Some((0x1532, 0x00AB)));
    assert_eq!(parse_hid_id_line(b"HID_ID=0003:0000abcd:0000Ef01"), Some((0xabcd, 0xef01)));
    assert_eq!(parse_hid_id_line(b"HID_ID=0003:00011532:000000AB"), None);
    assert_eq!(parse_hid_id_line(b"HID_ID=0003:00001532:000000AG"), None);
    assert_eq!(parse_hid_id_line(b"HID_NAME=Razer Basilisk V3 Pro"), None);
    assert_eq!(parse_hid_id_line(b"HID_ID=0003-00001532:000000AB"), None);
    assert_eq!(parse_hid_id_line(b""), None);
}

#[test]
fn open_errors() {
    assert_eq!(open_outcome_of_errno(None), OpenOutcome::Opened);
    assert_eq!(open_outcome_of_errno(Some(16)), OpenOutcome::ExclusiveAccess);
    assert_eq!(open_outcome_of_errno(Some(13)), OpenOutcome::Failed);
    match give_up_error(OpenOutcome::ExclusiveAccess, "held".to_string(), 1, 2) {
        DriverError::Busy(d) => assert_eq!(d, "held"),
        other => panic!("unexpected {:?}", other),
    }
    assert!(matches!(
        give_up_error(OpenOutcome::Failed, "denied".to_string(), 0x1532, 0x00AB),
        DriverError::DeviceNotFound(0x1532, 0x00AB)
    ));
}

#[test]
fn exchange_layout_and_answer_check() {
    let mut report = RazerReport::get_firmware_report();
    let ex = prepare_exchange(&mut report);
    assert_eq!(ex.request, report.to_hid_bytes());
    assert_eq!(report.crc, 0x83);
    assert_eq!((ex.min_wait_us, ex.response_length), (31100, 90));
    let answer: Vec<u8> = (0..90u8).collect();
    assert_eq!(check_response(answer.clone()).unwrap(), answer);
    assert!(matches!(check_response(vec![0; 89]), Err(DriverError::IncompleteTransfer)));
    assert!(matches!(check_response(vec![0; 91]), Err(DriverError::IncompleteTransfer)));
}

#[test]
fn error_messages() {
    assert_eq!(DriverError::DeviceNotFound(0x1532, 0x00AB).message(), "Device 1532:00ab not found or busy");
    assert_eq!(DriverError::DeviceNotFound(0xBEEF, 0x0009).message(), "Device beef:0009 not found or busy");
    assert_eq!(DriverError::UsbError("stall".to_string()).message(), "USB error: stall");
    assert_eq!(DriverError::IncompleteTransfer.message(), "Incomplete transfer");
    assert_eq!(DriverError::InvalidParameter("x".to_string()).message(), "Invalid parameter: x");
    assert_eq!(DriverError::Decode("short".to_string()).message(), "Decode error: short");
    assert_eq!(DriverError::Other("o".to_string()).message(), "Error: o");
}
