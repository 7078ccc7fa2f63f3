//! The transport contract that platform backends implement, and the
//! platform-independent decisions around it: which device to open, the USB
//! control transfers of a feature-report exchange, and how a transfer's
//! result is judged.
use vstd::prelude::*;
use crate::consts::{HID_FEATURE_REPORT_VALUE, RAZER_NEW_MOUSE_RECEIVER_WAIT_MAX_US};
use crate::error::DriverError;
use crate::report::RazerReport;

verus! {

/// A device found by enumeration; carries no ownership.
#[derive(Debug, Clone)]
pub struct Device {
    pub name: String,
    pub vendor_id: u32,
    pub product_id: u32,
}

pub open spec fn device_matches(d: Device, vendor_id: u16, product_id: u16) -> bool {
    d.vendor_id == vendor_id as u32 && d.product_id == product_id as u32
}

/// Position of the first device with this vendor id and product id.
pub fn find_device(devices: &[Device], vendor_id: u16, product_id: u16) -> (r: Option<usize>)
    ensures
        r is Some ==> r->0 < devices@.len() && device_matches(devices@[r->0 as int], vendor_id, product_id)
            && forall|j: int| 0 <= j < r->0 ==> !device_matches(#[trigger] devices@[j], vendor_id, product_id),
        r is None ==> forall|j: int|
            0 <= j < devices@.len() ==> !device_matches(#[trigger] devices@[j], vendor_id, product_id),
{
    let mut i: usize = 0;
    while i < devices.len()
        invariant
            i <= devices@.len(),
            forall|j: int| 0 <= j < i ==> !device_matches(#[trigger] devices@[j], vendor_id, product_id),
        decreases devices@.len() - i,
    {
        if devices[i].vendor_id == vendor_id as u32 && devices[i].product_id == product_id as u32 {
            return Some(i);
        }
        i = i + 1;
    }
    None
}

/// The setup stage of a USB control transfer.
#[derive(Debug, Clone, Copy, PartialEq, Eq)]
pub struct ControlRequest {
    pub request_type: u8,
    pub request: u8,
    pub value: u16,
    pub index: u16,
    pub length: u16,
}

/// Class request to an interface, host to device.
pub const REQUEST_TYPE_CLASS_INTERFACE_OUT: u8 = 0x21;

/// Class request to an interface, device to host.
pub const REQUEST_TYPE_CLASS_INTERFACE_IN: u8 = 0xA1;

pub const HID_REQ_GET_REPORT: u8 = 0x01;

pub const HID_REQ_SET_REPORT: u8 = 0x09;

/// The "set report" transfer that carries a request frame of `length` bytes.
pub fn set_feature_request(index: u16, length: u16) -> (r: ControlRequest)
    ensures
        r == (ControlRequest {
            request_type: 0x21,
            request: 0x09,
            value: 0x0300,
            index,
            length,
        }),
{
    ControlRequest {
        request_type: REQUEST_TYPE_CLASS_INTERFACE_OUT,
        request: HID_REQ_SET_REPORT,
        value: HID_FEATURE_REPORT_VALUE,
        index,
        length,
    }
}

/// The "get report" transfer that reads a response of `length` bytes.
pub fn get_feature_request(index: u16, length: u16) -> (r: ControlRequest)
    ensures
        r == (ControlRequest {
            request_type: 0xA1,
            request: 0x01,
            value: 0x0300,
            index,
            length,
        }),
{
    ControlRequest {
        request_type: REQUEST_TYPE_CLASS_INTERFACE_IN,
        request: HID_REQ_GET_REPORT,
        value: HID_FEATURE_REPORT_VALUE,
        index,
        length,
    }
}

/// Judges one transfer: a platform failure is a USB error carrying its
/// detail; moving any other number of bytes than requested is an
/// incomplete transfer.
pub fn check_transfer(failure: Option<String>, requested: usize, done: usize) -> (r: Result<(), DriverError>)
    ensures
        r is Ok <==> failure is None && done == requested,
        failure is Some ==> r == Err::<(), DriverError>(DriverError::UsbError(failure->0)),
        failure is None && done != requested ==> r == Err::<(), DriverError>(DriverError::IncompleteTransfer),
{
    match failure {
        Some(detail) => Err(DriverError::UsbError(detail)),
        None => if done != requested {
            Err(DriverError::IncompleteTransfer)
        } else {
            Ok(())
        },
    }
}

/// Number of the Linux hidraw ioctl that sets (`get == false`) or gets a
/// feature report of `len` bytes: read-write direction, type 'H', number
/// 0x06 or 0x07, size `len`.
pub fn hidraw_feature_ioctl(get: bool, len: u16) -> (r: u32)
    requires
        len < 0x4000,
    ensures
        r == 3 * 0x4000_0000 + len * 0x1_0000 + 0x48 * 0x100 + (if get { 0x07int } else { 0x06int }),
{
    let nr: u32 = if get {
        0x07
    } else {
        0x06
    };
    3 * 0x4000_0000u32 + (len as u32) * 0x1_0000 + 0x48 * 0x100 + nr
}

/// A frame as the hidraw feature ioctls take it: report id 0 first.
pub fn with_report_id(frame: &[u8]) -> (r: Vec<u8>)
    ensures
        r@ == seq![0u8] + frame@,
{
    let mut buf: Vec<u8> = Vec::new();
    buf.push(0);
    let mut i: usize = 0;
    while i < frame.len()
        invariant
            i <= frame@.len(),
            buf@ == seq![0u8] + frame@.subrange(0, i as int),
        decreases frame@.len() - i,
    {
        buf.push(frame[i]);
        i = i + 1;
        assert(buf@ =~= seq![0u8] + frame@.subrange(0, i as int));
    }
    assert(frame@.subrange(0, frame@.len() as int) =~= frame@);
    buf
}

/// The frame in a buffer filled by the hidraw get-feature ioctl, which
/// returned `n`: the report id byte dropped, at most `n` bytes kept.
pub fn without_report_id(buf: &[u8], n: usize) -> (r: Vec<u8>)
    ensures
        n >= 1 && n <= buf@.len() ==> r@ == buf@.subrange(1, n as int),
        n < 1 || n > buf@.len() ==> r@.len() == 0,
{
    let mut out: Vec<u8> = Vec::new();
    if n < 1 || n > buf.len() {
        return out;
    }
    let mut i: usize = 1;
    while i < n
        invariant
            1 <= i <= n <= buf@.len(),
            out@ == buf@.subrange(1, i as int),
        decreases n - i,
    {
        out.push(buf[i]);
        i = i + 1;
        assert(out@ =~= buf@.subrange(1, i as int));
    }
    out
}

/// A platform backend: opens one device exclusively, exchanges feature
/// reports with it, and releases it exactly once. A handle is not shared
/// between threads.
pub trait UsbDriver: Sized {
    /// Opens the device; `DeviceNotFound` when none is present or openable.
    fn open(vendor_id: u16, product_id: u16) -> Result<Self, DriverError>;

    fn list_devices() -> Vec<Device>;

    /// Sends `request` as a feature report, waits at least `min_wait_us`
    /// microseconds, then reads a response of `response_length` bytes.
    fn exchange_feature_report(
        &mut self,
        request: &[u8],
        index: u16,
        min_wait_us: u64,
        response_length: u16,
    ) -> Result<Vec<u8>, DriverError>;

    /// Releases the device; the handle is consumed.
    fn close(self) -> Result<(), DriverError>;
}

/// Length in bytes of every response this library asks for.
pub const RESPONSE_LEN: u16 = 90;

/// What one feature-report exchange hands to a backend: the request bytes,
/// the settle time in microseconds and the response length.
pub struct FeatureExchange {
    pub request: Vec<u8>,
    pub min_wait_us: u64,
    pub response_length: u16,
}

/// Finalizes `report` and prepares its exchange: the finalized frame's 90
/// bytes, the receiver's longest settle time and a 90-byte response.
pub fn prepare_exchange(report: &mut RazerReport) -> (r: FeatureExchange)
    ensures
        *final(report) == (RazerReport { crc: final(report).crc, ..*old(report) }),
        final(report).is_finalized(),
        r.request@ == final(report).wire(),
        r.min_wait_us == RAZER_NEW_MOUSE_RECEIVER_WAIT_MAX_US,
        r.min_wait_us >= 31000,
        r.response_length == 90,
{
    report.finalize();
    FeatureExchange {
        request: report.to_hid_bytes(),
        min_wait_us: RAZER_NEW_MOUSE_RECEIVER_WAIT_MAX_US as u64,
        response_length: RESPONSE_LEN,
    }
}

/// Judges a backend's answer: a 90-byte response comes back as it came; a
/// response of any other length is an incomplete transfer.
pub fn check_response(resp: Vec<u8>) -> (r: Result<Vec<u8>, DriverError>)
    ensures
        resp@.len() == 90 ==> r is Ok && r->Ok_0@ == resp@,
        resp@.len() != 90 ==> r == Err::<Vec<u8>, DriverError>(DriverError::IncompleteTransfer),
{
    if resp.len() != RESPONSE_LEN as usize {
        return Err(DriverError::IncompleteTransfer);
    }
    Ok(resp)
}

/// Sends `report` through `driver` as `prepare_exchange` lays it out and
/// judges the answer with `check_response`; a backend error comes back as
/// it came.
pub fn exchange_report<D: UsbDriver>(driver: &mut D, report: &mut RazerReport, index: u16) -> (r: Result<
    Vec<u8>,
    DriverError,
>)
    ensures
        *final(report) == (RazerReport { crc: final(report).crc, ..*old(report) }),
        final(report).is_finalized(),
        r is Ok ==> r->Ok_0@.len() == 90,
{
    let exchange = prepare_exchange(report);
    let resp = driver.exchange_feature_report(
        exchange.request.as_slice(),
        index,
        exchange.min_wait_us,
        exchange.response_length,
    )?;
    check_response(resp)
}

/// Value of an ASCII hexadecimal digit, either case.
pub open spec fn hex_digit_value(c: u8) -> Option<int> {
    if 0x30 <= c <= 0x39 {
        Some(c - 0x30)
    } else if 0x41 <= c <= 0x46 {
        Some(c - 0x41 + 10)
    } else if 0x61 <= c <= 0x66 {
        Some(c - 0x61 + 10)
    } else {
        None
    }
}

pub open spec fn is_hex_field(s: Seq<u8>, start: int, len: int) -> bool {
    forall|i: int| start <= i < start + len ==> (#[trigger] hex_digit_value(s[i])) is Some
}

/// The number that the `len` hexadecimal digits at `start` spell.
pub open spec fn hex_field_value(s: Seq<u8>, start: int, len: int) -> int
    decreases len,
{
    if len <= 0 {
        0
    } else {
        hex_field_value(s, start, len - 1) * 16 + hex_digit_value(s[start + len - 1])->0
    }
}

pub open spec fn pow16(n: int) -> int
    decreases n,
{
    if n <= 0 {
        1
    } else {
        16 * pow16(n - 1)
    }
}

/// The bytes of `HID_ID=`.
pub open spec fn hid_id_prefix() -> Seq<u8> {
    seq![0x48u8, 0x49u8, 0x44u8, 0x5Fu8, 0x49u8, 0x44u8, 0x3Du8]
}

/// Vendor id and product id of a uevent line `HID_ID=BBBB:VVVVVVVV:PPPPPPPP`
/// (bus, vendor and product in hexadecimal), when the line has that shape
/// and both ids fit in 16 bits.
pub open spec fn hid_id_of_line(line: Seq<u8>) -> Option<(u16, u16)> {
    if line.len() == 29 && line.subrange(0, 7) == hid_id_prefix() && line[11] == 0x3A && line[20] == 0x3A
        && is_hex_field(line, 7, 4) && is_hex_field(line, 12, 8) && is_hex_field(line, 21, 8)
        && hex_field_value(line, 12, 8) < 0x1_0000 && hex_field_value(line, 21, 8) < 0x1_0000 {
        Some((hex_field_value(line, 12, 8) as u16, hex_field_value(line, 21, 8) as u16))
    } else {
        None
    }
}

fn hex_digit(c: u8) -> (r: Option<u8>)
    ensures
        r is Some <==> hex_digit_value(c) is Some,
        r is Some ==> r->0 == hex_digit_value(c)->0 && r->0 < 16,
{
    if 0x30 <= c && c <= 0x39 {
        Some(c - 0x30)
    } else if 0x41 <= c && c <= 0x46 {
        Some(c - 0x41 + 10)
    } else if 0x61 <= c && c <= 0x66 {
        Some(c - 0x61 + 10)
    } else {
        None
    }
}

fn hex_field(line: &[u8], start: usize, len: usize) -> (r: Option<u64>)
    requires
        start + len <= line@.len(),
        start <= 29,
        len <= 8,
    ensures
        r is Some <==> is_hex_field(line@, start as int, len as int),
        r is Some ==> r->0 == hex_field_value(line@, start as int, len as int),
{
    let mut acc: u64 = 0;
    let mut i: usize = 0;
    while i < len
        invariant
            start + len <= line@.len(),
            start <= 29,
            len <= 8,
            i <= len,
            is_hex_field(line@, start as int, i as int),
            acc == hex_field_value(line@, start as int, i as int),
            acc < pow16(i as int),
        decreases len - i,
    {
        let c = line[start + i];
        let d = match hex_digit(c) {
            Some(d) => d,
            None => return None,
        };
        proof {
            lemma_pow16_mono(i as int + 1, 8);
            lemma_pow16_eight();
            let p = pow16(i as int);
            assert(acc * 16 + d < p * 16) by (nonlinear_arith)
                requires
                    acc < p,
                    d < 16,
            ;
        }
        acc = acc * 16 + d as u64;
        i = i + 1;
        assert(is_hex_field(line@, start as int, i as int)) by {
            assert forall|k: int| start <= k < start + i implies (#[trigger] hex_digit_value(line@[k])) is Some by {
                if k < start + i - 1 {
                    assert(is_hex_field(line@, start as int, i - 1));
                }
            }
        }
    }
    Some(acc)
}

proof fn lemma_pow16_eight()
    ensures
        pow16(8) == 0x1_0000_0000,
{
    assert(pow16(0) == 1);
    assert(pow16(1) == 16);
    assert(pow16(2) == 0x100);
    assert(pow16(3) == 0x1000);
    assert(pow16(4) == 0x1_0000);
    assert(pow16(5) == 0x10_0000);
    assert(pow16(6) == 0x100_0000);
    assert(pow16(7) == 0x1000_0000);
}

proof fn lemma_pow16_mono(a: int, b: int)
    requires
        0 <= a <= b,
    ensures
        pow16(a) <= pow16(b),
    decreases b - a,
{
    if a < b {
        lemma_pow16_mono(a, b - 1);
        lemma_pow16_pos(b - 1);
    }
}

proof fn lemma_pow16_pos(a: int)
    requires
        0 <= a,
    ensures
        pow16(a) >= 1,
    decreases a,
{
    if a > 0 {
        lemma_pow16_pos(a - 1);
    }
}

/// Parses the `HID_ID=` line of a hidraw device's uevent file.
pub fn parse_hid_id_line(line: &[u8]) -> (r: Option<(u16, u16)>)
    ensures
        r == hid_id_of_line(line@),
{
    if line.len() != 29 || line[0] != 0x48 || line[1] != 0x49 || line[2] != 0x44 || line[3] != 0x5F
        || line[4] != 0x49 || line[5] != 0x44 || line[6] != 0x3D || line[11] != 0x3A || line[20] != 0x3A {
        assert(line@.len() == 29 && line@.subrange(0, 7) == hid_id_prefix() ==> line@[0] == 0x48
            && line@[1] == 0x49 && line@[2] == 0x44 && line@[3] == 0x5F && line@[4] == 0x49 && line@[5]
            == 0x44 && line@[6] == 0x3D);
        return None;
    }
    assert(line@.subrange(0, 7) =~= hid_id_prefix());
    match (hex_field(line, 7, 4), hex_field(line, 12, 8), hex_field(line, 21, 8)) {
        (Some(_), Some(vendor), Some(product)) => {
            if vendor < 0x1_0000 && product < 0x1_0000 {
                Some((vendor as u16, product as u16))
            } else {
                None
            }
        },
        _ => None,
    }
}

} // verus!
