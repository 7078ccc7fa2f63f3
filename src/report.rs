//! The fixed 90-byte feature-report frame and the builders and parsers for
//! the commands this library issues.
use vstd::prelude::*;
use crate::consts::{DPI_MAX, DPI_MIN, MAX_DPI_STAGES, VARSTORE};
use crate::settings::DpiStage;
use crate::error::DriverError;

verus! {

/// Correlation byte of a frame: device index in the low 3 bits, request id in
/// the high 5 bits.
#[derive(Debug, Copy, Clone)]
pub struct TransactionId(pub u8);

impl TransactionId {
    pub open spec fn spec_device(self) -> u8 {
        self.0 & 7
    }

    pub open spec fn spec_id(self) -> u8 {
        (self.0 >> 3) & 31
    }

    pub fn new(device: u8, id: u8) -> (r: Self)
        requires
            device < 8,
            id < 32,
        ensures
            r.0 == device + id * 8,
            r.spec_device() == device,
            r.spec_id() == id,
    {
        let raw: u8 = (device & 0b0000_0111) | ((id & 0b0001_1111) << 3);
        assert(raw == device + id * 8 && (raw & 7) == device && ((raw >> 3) & 31) == id) by (bit_vector)
            requires
                device < 8,
                id < 32,
                raw == (device & 7) | ((id & 31) << 3),
        ;
        TransactionId(raw)
    }

    pub fn raw(&self) -> (r: u8)
        ensures
            r == self.0,
    {
        self.0
    }

    pub fn device(&self) -> (r: u8)
        ensures
            r == self.spec_device(),
            r < 8,
    {
        let v = self.0;
        let r = v & 0b0000_0111;
        assert(r < 8) by (bit_vector)
            requires
                r == v & 7,
        ;
        r
    }

    pub fn id(&self) -> (r: u8)
        ensures
            r == self.spec_id(),
            r < 32,
    {
        let v = self.0;
        let r = (v >> 3) & 0b0001_1111;
        assert(r < 32) by (bit_vector)
            requires
                r == (v >> 3) & 31,
        ;
        r
    }
}

/// Command byte of a frame: direction in the high bit (1 = device to host),
/// command number in the low 7 bits.
#[derive(Debug, Copy, Clone)]
pub struct CommandId(pub u8);

impl CommandId {
    pub open spec fn spec_direction(self) -> u8 {
        (self.0 >> 7) & 1
    }

    pub open spec fn spec_id(self) -> u8 {
        self.0 & 127
    }

    pub fn new(direction: u8, id: u8) -> (r: Self)
        requires
            direction < 2,
            id < 128,
        ensures
            r.0 == direction * 128 + id,
            r.spec_direction() == direction,
            r.spec_id() == id,
    {
        let raw: u8 = (direction << 7) | (id & 0x7F);
        assert(raw == direction * 128 + id && ((raw >> 7) & 1) == direction && (raw & 127) == id)
            by (bit_vector)
            requires
                direction < 2,
                id < 128,
                raw == (direction << 7) | (id & 127),
        ;
        CommandId(raw)
    }

    pub fn raw(&self) -> (r: u8)
        ensures
            r == self.0,
    {
        self.0
    }

    pub fn direction(&self) -> (r: u8)
        ensures
            r == self.spec_direction(),
            r < 2,
    {
        let v = self.0;
        let r = (v >> 7) & 1;
        assert(r < 2) by (bit_vector)
            requires
                r == (v >> 7) & 1,
        ;
        r
    }

    pub fn id(&self) -> (r: u8)
        ensures
            r == self.spec_id(),
            r < 128,
    {
        let v = self.0;
        let r = v & 0x7F;
        assert(r < 128) by (bit_vector)
            requires
                r == v & 127,
        ;
        r
    }
}


/// Length in bytes of every frame on the wire.
pub const RAZER_USB_REPORT_LEN: u8 = 0x5A;

/// XOR of all bytes of `s`.
pub open spec fn xor_fold(s: Seq<u8>) -> u8
    decreases s.len(),
{
    if s.len() == 0 {
        0
    } else {
        xor_fold(s.drop_last()) ^ s.last()
    }
}

/// The checksum of a frame whose first 88 bytes are `body`: the XOR of bytes
/// 2 to 87, transaction id through the last argument byte.
pub open spec fn frame_checksum(body: Seq<u8>) -> u8 {
    xor_fold(body.subrange(2, 88))
}

/// One vendor feature report. Multi-byte fields are big-endian on the wire.
#[derive(Debug, Copy, Clone)]
pub struct RazerReport {
    pub status: u8,
    pub transaction_id: TransactionId,
    pub remaining_packets: u16,
    pub protocol_type: u8,
    pub data_size: u8,
    pub command_class: u8,
    pub command_id: CommandId,
    pub arguments: [u8; 80],
    pub crc: u8,
    pub reserved: u8,
}

impl RazerReport {
    /// The eight header bytes as they stand on the wire.
    pub open spec fn header(self) -> Seq<u8> {
        seq![
            self.status,
            self.transaction_id.0,
            (self.remaining_packets / 256) as u8,
            (self.remaining_packets % 256) as u8,
            self.protocol_type,
            self.data_size,
            self.command_class,
            self.command_id.0,
        ]
    }

    /// The first 88 bytes on the wire: header and arguments.
    pub open spec fn body(self) -> Seq<u8> {
        self.header() + self.arguments@
    }

    /// All 90 bytes on the wire.
    pub open spec fn wire(self) -> Seq<u8> {
        self.body().push(self.crc).push(self.reserved)
    }

    /// The frame carries the checksum of its own bytes.
    pub open spec fn is_finalized(self) -> bool {
        self.crc == frame_checksum(self.body())
    }

    /// The first 88 bytes on the wire: header and arguments, without checksum.
    pub fn raw_bytes(&self) -> (r: [u8; 88])
        ensures
            r@ == self.body(),
    {
        let mut list: [u8; 88] = [0; 88];
        list[0] = self.status;
        list[1] = self.transaction_id.0;
        list[2] = (self.remaining_packets / 256) as u8;
        list[3] = (self.remaining_packets % 256) as u8;
        list[4] = self.protocol_type;
        list[5] = self.data_size;
        list[6] = self.command_class;
        list[7] = self.command_id.0;
        let mut i: usize = 0;
        while i < 80
            invariant
                i <= 80,
                list@.len() == 88,
                list@.subrange(0, 8) == self.header(),
                forall|j: int| 0 <= j < i ==> list@[8 + j] == self.arguments@[j],
            decreases 80 - i,
        {
            list[8 + i] = self.arguments[i];
            i = i + 1;
        }
        assert(list@ =~= self.body());
        list
    }

    /// The 90 bytes to transmit.
    pub fn to_hid_bytes(&self) -> (r: Vec<u8>)
        ensures
            r@ == self.wire(),
            r@.len() == 90,
    {
        let raw = self.raw_bytes();
        let mut buf: Vec<u8> = Vec::with_capacity(90);
        let mut i: usize = 0;
        while i < 88
            invariant
                i <= 88,
                raw@ == self.body(),
                buf@ == raw@.subrange(0, i as int),
            decreases 88 - i,
        {
            buf.push(raw[i]);
            i = i + 1;
            assert(buf@ =~= raw@.subrange(0, i as int));
        }
        buf.push(self.crc);
        buf.push(self.reserved);
        assert(buf@ =~= self.wire());
        buf
    }

    /// Computes the checksum and stores it in `crc`; nothing else changes.
    pub fn finalize(&mut self)
        ensures
            *final(self) == (RazerReport { crc: frame_checksum(old(self).body()), ..*old(self) }),
            final(self).is_finalized(),
    {
        let bytes = self.raw_bytes();
        let mut acc: u8 = 0;
        let mut i: usize = 2;
        while i < 88
            invariant
                2 <= i <= 88,
                bytes@ == old(self).body(),
                *self == *old(self),
                acc == xor_fold(bytes@.subrange(2, i as int)),
            decreases 88 - i,
        {
            assert(bytes@.subrange(2, i + 1).drop_last() =~= bytes@.subrange(2, i as int));
            acc = acc ^ bytes[i];
            i = i + 1;
        }
        self.crc = acc;
    }
}

/// `args` zero-padded to the 80 argument bytes.
pub open spec fn padded(args: Seq<u8>) -> Seq<u8> {
    Seq::new(80, |i: int| if i < args.len() { args[i] } else { 0u8 })
}

/// The wire code of a supported polling rate in Hz.
pub open spec fn poll_rate_code(rate: u16) -> Option<u8> {
    if rate == 1000 {
        Some(0x01u8)
    } else if rate == 500 {
        Some(0x02u8)
    } else if rate == 125 {
        Some(0x08u8)
    } else {
        None
    }
}

pub open spec fn dpi_in_range(dpi: u16) -> bool {
    DPI_MIN <= dpi <= DPI_MAX
}

/// High and low byte of a 16-bit value, in wire order.
pub open spec fn be_bytes(v: u16) -> Seq<u8> {
    seq![(v / 256) as u8, (v % 256) as u8]
}

impl RazerReport {
    /// A fresh request: status 0, transaction id 0x1f, a single packet, the
    /// given command and payload, checksum not yet computed.
    pub open spec fn is_request(self, class: u8, cmd: u8, size: u8, args: Seq<u8>) -> bool {
        &&& self.is_request_header(class, cmd, size)
        &&& self.arguments@ == padded(args)
    }

    /// Every field of a fresh request but the arguments.
    pub open spec fn is_request_header(self, class: u8, cmd: u8, size: u8) -> bool {
        &&& self.status == 0
        &&& self.transaction_id.0 == 0x1f
        &&& self.remaining_packets == 0
        &&& self.protocol_type == 0
        &&& self.data_size == size
        &&& self.command_class == class
        &&& self.command_id.0 == cmd
        &&& self.crc == 0
        &&& self.reserved == 0
    }

    fn request(class: u8, cmd: u8, size: u8, arguments: [u8; 80]) -> (r: Self)
        ensures
            r.status == 0,
            r.transaction_id.0 == 0x1f,
            r.remaining_packets == 0,
            r.protocol_type == 0,
            r.data_size == size,
            r.command_class == class,
            r.command_id.0 == cmd,
            r.arguments == arguments,
            r.crc == 0,
            r.reserved == 0,
    {
        RazerReport {
            status: 0x00,
            transaction_id: TransactionId(0x1f),
            remaining_packets: 0x00,
            protocol_type: 0x00,
            data_size: size,
            command_class: class,
            command_id: CommandId(cmd),
            arguments,
            crc: 0x00,
            reserved: 0x00,
        }
    }

    /// Query of the firmware version; also the liveness probe.
    pub fn get_firmware_report() -> (r: Self)
        ensures
            r.is_request(0x00, 0x81, 0x02, seq![]),
    {
        let args = [0u8; 80];
        assert(args@ =~= padded(seq![]));
        Self::request(0x00, 0x81, 0x02, args)
    }

    /// Query of the polling rate; the answer's code is in argument 0.
    pub fn get_poll_rate_report() -> (r: Self)
        ensures
            r.is_request(0x00, 0x85, 0x01, seq![]),
    {
        let args = [0u8; 80];
        assert(args@ =~= padded(seq![]));
        Self::request(0x00, 0x85, 0x01, args)
    }

    /// Sets the polling rate: 1000, 500 or 125 Hz; any other rate is refused.
    pub fn set_poll_rate_report(polling_rate: u16) -> (r: Result<Self, DriverError>)
        ensures
            r is Ok <==> poll_rate_code(polling_rate) is Some,
            r is Ok ==> r->Ok_0.is_request(0x00, 0x05, 0x01, seq![poll_rate_code(polling_rate)->0]),
            r is Err ==> r->Err_0.is_invalid_parameter(),
    {
        let code: u8 = if polling_rate == 1000 {
            0x01
        } else if polling_rate == 500 {
            0x02
        } else if polling_rate == 125 {
            0x08
        } else {
            return Err(DriverError::InvalidParameter("polling rate must be 1000, 500 or 125".to_string()));
        };
        let mut args = [0u8; 80];
        args[0] = code;
        assert(args@ =~= padded(seq![code]));
        Ok(Self::request(0x00, 0x05, 0x01, args))
    }

    /// Query of the current DPI on both axes.
    pub fn get_dpi_xy_report() -> (r: Self)
        ensures
            r.is_request(0x04, 0x85, 0x07, seq![]),
    {
        let args = [0u8; 80];
        assert(args@ =~= padded(seq![]));
        Self::request(0x04, 0x85, 0x07, args)
    }

    /// Sets the DPI of both axes, persisted on the device; each must lie in
    /// 100..=35000.
    pub fn set_dpi_xy_report(dpi_x: u16, dpi_y: u16) -> (r: Result<Self, DriverError>)
        ensures
            r is Ok <==> dpi_in_range(dpi_x) && dpi_in_range(dpi_y),
            r is Ok ==> r->Ok_0.is_request(
                0x04,
                0x05,
                0x07,
                seq![VARSTORE] + be_bytes(dpi_x) + be_bytes(dpi_y) + seq![0u8, 0u8],
            ),
            r is Err ==> r->Err_0.is_invalid_parameter(),
    {
        if dpi_x < DPI_MIN || dpi_x > DPI_MAX {
            return Err(DriverError::InvalidParameter("dpi_x must lie between 100 and 35000".to_string()));
        }
        if dpi_y < DPI_MIN || dpi_y > DPI_MAX {
            return Err(DriverError::InvalidParameter("dpi_y must lie between 100 and 35000".to_string()));
        }
        let mut args = [0u8; 80];
        args[0] = VARSTORE;
        args[1] = (dpi_x / 256) as u8;
        args[2] = (dpi_x % 256) as u8;
        args[3] = (dpi_y / 256) as u8;
        args[4] = (dpi_y % 256) as u8;
        assert(args@ =~= padded(seq![VARSTORE] + be_bytes(dpi_x) + be_bytes(dpi_y) + seq![0u8, 0u8]));
        Ok(Self::request(0x04, 0x05, 0x07, args))
    }

    /// Query of the charging state.
    pub fn get_charging_state_report() -> (r: Self)
        ensures
            r.is_request(0x07, 0x84, 0x02, seq![]),
    {
        let args = [0u8; 80];
        assert(args@ =~= padded(seq![]));
        Self::request(0x07, 0x84, 0x02, args)
    }

    /// Query of the battery level; the raw level 0..=255 is in argument 1.
    pub fn get_battery_level_report() -> (r: Self)
        ensures
            r.is_request(0x07, 0x80, 0x02, seq![]),
    {
        let args = [0u8; 80];
        assert(args@ =~= padded(seq![]));
        Self::request(0x07, 0x80, 0x02, args)
    }

    /// Query of the matrix brightness of the zero LED.
    pub fn get_matrix_brightness_report() -> (r: Self)
        ensures
            r.is_request(0x0F, 0x84, 0x03, seq![VARSTORE, 0x00u8]),
    {
        let mut args = [0u8; 80];
        args[0] = VARSTORE;
        assert(args@ =~= padded(seq![VARSTORE, 0x00u8]));
        Self::request(0x0F, 0x84, 0x03, args)
    }

    /// Sets the matrix brightness of the zero LED, persisted on the device.
    pub fn set_matrix_brightness_report(brightness: u8) -> (r: Self)
        ensures
            r.is_request(0x0F, 0x04, 0x03, seq![VARSTORE, 0x00u8, brightness]),
    {
        let mut args = [0u8; 80];
        args[0] = VARSTORE;
        args[2] = brightness;
        assert(args@ =~= padded(seq![VARSTORE, 0x00u8, brightness]));
        Self::request(0x0F, 0x04, 0x03, args)
    }

    /// Query of the brightness of one LED.
    pub fn get_led_brightness_report(led_id: u8) -> (r: Self)
        ensures
            r.is_request(0x0F, 0x84, 0x03, seq![VARSTORE, led_id]),
    {
        let mut args = [0u8; 80];
        args[0] = VARSTORE;
        args[1] = led_id;
        assert(args@ =~= padded(seq![VARSTORE, led_id]));
        Self::request(0x0F, 0x84, 0x03, args)
    }

    /// Query of the colour of one LED.
    pub fn get_led_rgb_report(led_id: u8) -> (r: Self)
        ensures
            r.is_request(0x0F, 0x84, 0x05, seq![VARSTORE, led_id]),
    {
        let mut args = [0u8; 80];
        args[0] = VARSTORE;
        args[1] = led_id;
        assert(args@ =~= padded(seq![VARSTORE, led_id]));
        Self::request(0x0F, 0x84, 0x05, args)
    }

    /// Sets one LED to a static colour, persisted on the device.
    pub fn set_matrix_effect_static_report(rgb: [u8; 3], led_id: u8) -> (r: Self)
        ensures
            r.is_request(0x0F, 0x06, 0x05, seq![VARSTORE, led_id, rgb[0], rgb[1], rgb[2]]),
    {
        let mut args = [0u8; 80];
        args[0] = VARSTORE;
        args[1] = led_id;
        args[2] = rgb[0];
        args[3] = rgb[1];
        args[4] = rgb[2];
        assert(args@ =~= padded(seq![VARSTORE, led_id, rgb[0], rgb[1], rgb[2]]));
        Self::request(0x0F, 0x06, 0x05, args)
    }

    /// Query of the smart-reel scroll mode.
    pub fn get_scroll_smart_reel_report() -> (r: Self)
        ensures
            r.is_request(0x02, 0x97, 0x02, seq![VARSTORE]),
    {
        let mut args = [0u8; 80];
        args[0] = VARSTORE;
        assert(args@ =~= padded(seq![VARSTORE]));
        Self::request(0x02, 0x97, 0x02, args)
    }

    /// Query of the idle timeout; the answer is big-endian in arguments 0..2.
    pub fn get_idle_timeout_report() -> (r: Self)
        ensures
            r.is_request(0x07, 0x83, 0x02, seq![]),
    {
        let args = [0u8; 80];
        assert(args@ =~= padded(seq![]));
        Self::request(0x07, 0x83, 0x02, args)
    }

    /// Query of the low-battery threshold.
    pub fn get_charge_low_threshold_report() -> (r: Self)
        ensures
            r.is_request(0x07, 0x81, 0x01, seq![]),
    {
        let args = [0u8; 80];
        assert(args@ =~= padded(seq![]));
        Self::request(0x07, 0x81, 0x01, args)
    }

    /// Query of the device mode.
    pub fn get_device_mode_report() -> (r: Self)
        ensures
            r.is_request(0x00, 0x84, 0x02, seq![]),
    {
        let args = [0u8; 80];
        assert(args@ =~= padded(seq![]));
        Self::request(0x00, 0x84, 0x02, args)
    }

    /// Query of the stored DPI stages.
    pub fn get_dpi_stages_report() -> (r: Self)
        ensures
            r.is_request(0x04, 0x85, 0x26, seq![VARSTORE]),
    {
        let mut args = [0u8; 80];
        args[0] = VARSTORE;
        assert(args@ =~= padded(seq![VARSTORE]));
        Self::request(0x04, 0x85, 0x26, args)
    }

    /// The frame sets the DPI stages `s`: storage mode, the active stage's
    /// number and the count, then one 7-byte record per stage (number, DPI X
    /// and DPI Y big-endian, two reserved bytes), the rest zero.
    pub open spec fn encodes_stages(self, s: Seq<DpiStage>) -> bool {
        &&& self.is_request_header(0x04, 0x05, 0x26)
        &&& self.arguments@[0] == VARSTORE
        &&& forall|k: int| 0 <= k < s.len() && s[k].active ==> self.arguments@[1] == s[k].stage
        &&& self.arguments@[2] == s.len()
        &&& forall|k: int| 0 <= k < s.len() ==> self.holds_stage_record(k, s[k])
        &&& forall|i: int| 3 + 7 * s.len() <= i < 80 ==> self.arguments@[i] == 0
    }

    pub open spec fn holds_stage_record(self, k: int, st: DpiStage) -> bool {
        stage_record_at(self.arguments@, k, st)
    }

    /// Sets the DPI stages, persisted on the device. Refused unless
    /// `valid_stage_set(stages)`.
    pub fn set_dpi_stages_report(stages: &[DpiStage]) -> (r: Result<Self, DriverError>)
        ensures
            r is Ok <==> valid_stage_set(stages@),
            r is Ok ==> r->Ok_0.encodes_stages(stages@),
            r is Err ==> r->Err_0.is_invalid_parameter(),
    {
        let n = stages.len();
        if n == 0 || n > MAX_DPI_STAGES {
            return Err(DriverError::InvalidParameter("between 1 and 5 DPI stages are needed".to_string()));
        }
        let mut found: Option<usize> = None;
        let mut i: usize = 0;
        while i < n
            invariant
                n == stages@.len(),
                1 <= n <= 5,
                i <= n,
                forall|j: int| 0 <= j < i ==> stage_in_range(#[trigger] stages@[j]),
                forall|a: int, b: int| 0 <= a < b < i ==> stages@[a].stage != stages@[b].stage,
                found is None ==> forall|j: int| 0 <= j < i ==> !(#[trigger] stages@[j]).active,
                found is Some ==> found->0 < i && stages@[found->0 as int].active,
                found is Some ==> forall|j: int|
                    0 <= j < i && j != found->0 ==> !(#[trigger] stages@[j]).active,
            decreases n - i,
        {
            let st = stages[i];
            if st.dpi_x < DPI_MIN || st.dpi_x > DPI_MAX || st.dpi_y < DPI_MIN || st.dpi_y > DPI_MAX {
                return Err(DriverError::InvalidParameter("stage DPI must lie between 100 and 35000".to_string()));
            }
            if st.stage == 0 {
                return Err(DriverError::InvalidParameter("stage numbers start at 1".to_string()));
            }
            let mut j: usize = 0;
            while j < i
                invariant
                    i < n,
                    n == stages@.len(),
                    st == stages@[i as int],
                    j <= i,
                    forall|a: int| 0 <= a < j ==> stages@[a].stage != st.stage,
                decreases i - j,
            {
                if stages[j].stage == st.stage {
                    assert(!valid_stage_set(stages@)) by {
                        assert(stages@[j as int].stage == stages@[i as int].stage);
                    }
                    return Err(DriverError::InvalidParameter("stage numbers must differ".to_string()));
                }
                j = j + 1;
            }
            if st.active {
                match found {
                    Some(k) => {
                        assert(!valid_stage_set(stages@)) by {
                            if valid_stage_set(stages@) {
                                let w = choose|w: int|
                                    0 <= w < stages@.len() && stages@[w].active && forall|o: int|
                                        0 <= o < stages@.len() && o != w ==> !(#[trigger] stages@[o]).active;
                                if w == k as int {
                                    assert(!stages@[i as int].active);
                                } else {
                                    assert(!stages@[k as int].active);
                                }
                            }
                        }
                        return Err(DriverError::InvalidParameter("exactly one stage must be active".to_string()));
                    },
                    None => {
                        found = Some(i);
                    },
                }
            }
            i = i + 1;
        }
        let active = match found {
            Some(k) => k,
            None => {
                assert(!valid_stage_set(stages@)) by {
                    if valid_stage_set(stages@) {
                        let w = choose|w: int|
                            0 <= w < stages@.len() && stages@[w].active && forall|o: int|
                                0 <= o < stages@.len() && o != w ==> !(#[trigger] stages@[o]).active;
                        assert(!stages@[w].active);
                    }
                }
                return Err(DriverError::InvalidParameter("exactly one stage must be active".to_string()));
            },
        };
        assert(valid_stage_set(stages@)) by {
            assert(forall|o: int|
                0 <= o < stages@.len() && o != active ==> !(#[trigger] stages@[o]).active);
        }
        let mut args = [0u8; 80];
        args[0] = VARSTORE;
        args[1] = stages[active].stage;
        args[2] = n as u8;
        let mut k: usize = 0;
        while k < n
            invariant
                n == stages@.len(),
                1 <= n <= 5,
                k <= n,
                active < n,
                args@.len() == 80,
                args@[0] == VARSTORE,
                args@[1] == stages@[active as int].stage,
                args@[2] == n,
                forall|m: int| 0 <= m < k ==> stage_record_at(args@, m, #[trigger] stages@[m]),
                forall|m: int| 3 + 7 * k <= m < 80 ==> args@[m] == 0,
            decreases n - k,
        {
            let st = stages[k];
            let base: usize = 3 + 7 * k;
            args[base] = st.stage;
            args[base + 1] = (st.dpi_x / 256) as u8;
            args[base + 2] = (st.dpi_x % 256) as u8;
            args[base + 3] = (st.dpi_y / 256) as u8;
            args[base + 4] = (st.dpi_y % 256) as u8;
            k = k + 1;
        }
        let r = Self::request(0x04, 0x05, 0x26, args);
        assert forall|m: int| 0 <= m < stages@.len() && stages@[m].active implies r.arguments@[1]
            == stages@[m].stage by {
            if m != active {
                assert(!stages@[m].active);
            }
        }
        assert forall|m: int| 0 <= m < stages@.len() implies r.holds_stage_record(m, stages@[m]) by {
            assert(stage_record_at(args@, m, stages@[m]));
        }
        Ok(r)
    }
}

/// `args` holds the 7-byte record of `st` at stage position `k`.
pub open spec fn stage_record_at(args: Seq<u8>, k: int, st: DpiStage) -> bool {
    &&& args[3 + 7 * k] == st.stage
    &&& args[4 + 7 * k] == (st.dpi_x / 256) as u8
    &&& args[5 + 7 * k] == (st.dpi_x % 256) as u8
    &&& args[6 + 7 * k] == (st.dpi_y / 256) as u8
    &&& args[7 + 7 * k] == (st.dpi_y % 256) as u8
    &&& args[8 + 7 * k] == 0
    &&& args[9 + 7 * k] == 0
}

pub open spec fn stage_in_range(st: DpiStage) -> bool {
    dpi_in_range(st.dpi_x) && dpi_in_range(st.dpi_y) && st.stage >= 1
}

/// A stage set the device accepts: one to five stages, each in range and
/// numbered from 1, no two with the same number, exactly one active.
pub open spec fn valid_stage_set(s: Seq<DpiStage>) -> bool {
    &&& 1 <= s.len() <= 5
    &&& forall|i: int| 0 <= i < s.len() ==> stage_in_range(#[trigger] s[i])
    &&& forall|a: int, b: int| 0 <= a < b < s.len() ==> s[a].stage != s[b].stage
    &&& exists|w: int|
        0 <= w < s.len() && s[w].active && forall|o: int|
            0 <= o < s.len() && o != w ==> !(#[trigger] s[o]).active
}

/// One key remapping entry: key code `from` sends `to`, with modifier flags.
#[derive(Debug, Clone, Copy, PartialEq, Eq)]
pub struct RazerKeyTranslation {
    pub from: u16,
    pub to: u16,
    pub flags: u8,
}

/// Report that carries per-LED colour data to an addressable-RGB channel.
#[derive(Clone, Copy)]
pub struct RazerARGBReport {
    pub report_id: u8,
    pub channel_1: u8,
    pub channel_2: u8,
    pub pad: u8,
    pub last_idx: u8,
    pub color_data: [u8; 315],
}

/// Two frames are equal when they put the same bytes on the wire.
impl PartialEq for RazerReport {
    fn eq(&self, other: &RazerReport) -> (r: bool) {
        if self.status != other.status || self.transaction_id.0 != other.transaction_id.0
            || self.remaining_packets != other.remaining_packets || self.protocol_type
            != other.protocol_type || self.data_size != other.data_size || self.command_class
            != other.command_class || self.command_id.0 != other.command_id.0 || self.crc != other.crc
            || self.reserved != other.reserved {
            assert(self.wire()[0] != other.wire()[0] || self.wire()[1] != other.wire()[1]
                || self.wire()[2] != other.wire()[2] || self.wire()[3] != other.wire()[3]
                || self.wire()[4] != other.wire()[4] || self.wire()[5] != other.wire()[5]
                || self.wire()[6] != other.wire()[6] || self.wire()[7] != other.wire()[7]
                || self.wire()[88] != other.wire()[88] || self.wire()[89] != other.wire()[89]);
            return false;
        }
        let mut i: usize = 0;
        while i < 80
            invariant
                i <= 80,
                forall|j: int| 0 <= j < i ==> self.arguments@[j] == other.arguments@[j],
            decreases 80 - i,
        {
            if self.arguments[i] != other.arguments[i] {
                assert(self.wire()[8 + i] != other.wire()[8 + i]);
                return false;
            }
            i = i + 1;
        }
        assert(self.arguments@ =~= other.arguments@);
        assert(self.wire() =~= other.wire());
        true
    }
}

impl vstd::std_specs::cmp::PartialEqSpecImpl for RazerReport {
    open spec fn obeys_eq_spec() -> bool {
        true
    }

    open spec fn eq_spec(&self, other: &RazerReport) -> bool {
        self.wire() == other.wire()
    }
}

} // verus!
