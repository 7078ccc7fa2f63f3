//! Decoding of response frames, field by field from the received bytes.
//! Every parser checks the length it needs and fails with a decode error on
//! a shorter response.
use vstd::prelude::*;
use crate::error::DriverError;
use crate::consts::VARSTORE;
use crate::report::{
    be_bytes, dpi_in_range, frame_checksum, padded, poll_rate_code, valid_stage_set, xor_fold,
    CommandId, RazerReport, TransactionId, RAZER_USB_REPORT_LEN,
};
use crate::settings::DpiStage;

verus! {

/// Argument byte `k` of a response: the arguments start at byte 8.
pub open spec fn resp_arg(resp: Seq<u8>, k: int) -> u8 {
    resp[8 + k]
}

/// Status byte of a response frame.
#[derive(Debug, Clone, Copy, PartialEq, Eq)]
pub enum CommandStatus {
    NewCommand,
    Busy,
    Successful,
    Failure,
    Timeout,
    NotSupported,
}

pub open spec fn status_of(b: u8) -> Option<CommandStatus> {
    if b == 0 {
        Some(CommandStatus::NewCommand)
    } else if b == 1 {
        Some(CommandStatus::Busy)
    } else if b == 2 {
        Some(CommandStatus::Successful)
    } else if b == 3 {
        Some(CommandStatus::Failure)
    } else if b == 4 {
        Some(CommandStatus::Timeout)
    } else if b == 5 {
        Some(CommandStatus::NotSupported)
    } else {
        None
    }
}

/// The status of a response: its first byte.
pub fn parse_status(resp: &[u8]) -> (r: Result<CommandStatus, DriverError>)
    ensures
        r is Ok <==> resp@.len() >= 1 && status_of(resp@[0]) is Some,
        r is Ok ==> r->Ok_0 == status_of(resp@[0])->0,
        r is Err ==> r->Err_0.is_decode(),
{
    if resp.len() < 1 {
        return Err(DriverError::Decode("empty response".to_string()));
    }
    let b = resp[0];
    if b == 0 {
        Ok(CommandStatus::NewCommand)
    } else if b == 1 {
        Ok(CommandStatus::Busy)
    } else if b == 2 {
        Ok(CommandStatus::Successful)
    } else if b == 3 {
        Ok(CommandStatus::Failure)
    } else if b == 4 {
        Ok(CommandStatus::Timeout)
    } else if b == 5 {
        Ok(CommandStatus::NotSupported)
    } else {
        Err(DriverError::Decode("unknown status byte".to_string()))
    }
}

/// Battery percentage of a raw level 0..=255, rounded down.
pub open spec fn battery_percent(raw: u8) -> u8 {
    (raw as int * 100 / 255) as u8
}

/// The battery level in percent, from the raw level in argument 1.
pub fn parse_battery_level(resp: &[u8]) -> (r: Result<u8, DriverError>)
    ensures
        r is Ok <==> resp@.len() >= 10,
        r is Ok ==> r->Ok_0 == battery_percent(resp_arg(resp@, 1)),
        r is Ok ==> r->Ok_0 <= 100,
        r is Err ==> r->Err_0.is_decode(),
{
    if resp.len() < 10 {
        return Err(DriverError::Decode("response too short for a battery level".to_string()));
    }
    let raw = resp[9] as u32;
    let pct = raw * 100 / 255;
    assert(pct <= 100) by (nonlinear_arith)
        requires
            raw <= 255,
            pct == raw * 100 / 255,
    ;
    Ok(pct as u8)
}

/// The polling rate in Hz that a wire code stands for.
pub open spec fn poll_rate_of_code(code: u8) -> Option<u16> {
    if code == 0x01 {
        Some(1000u16)
    } else if code == 0x02 {
        Some(500u16)
    } else if code == 0x08 {
        Some(125u16)
    } else {
        None
    }
}

/// The polling rate that a response carries in argument 0.
pub open spec fn poll_rate_response(resp: Seq<u8>) -> Option<u16> {
    if resp.len() < 9 {
        None
    } else {
        poll_rate_of_code(resp_arg(resp, 0))
    }
}

/// The polling rate in Hz; an unknown code is a decode error, never a default.
pub fn parse_poll_rate(resp: &[u8]) -> (r: Result<u16, DriverError>)
    ensures
        r is Ok <==> poll_rate_response(resp@) is Some,
        r is Ok ==> r->Ok_0 == poll_rate_response(resp@)->0,
        r is Err ==> r->Err_0.is_decode(),
{
    if resp.len() < 9 {
        return Err(DriverError::Decode("response too short for a polling rate".to_string()));
    }
    let code = resp[8];
    if code == 0x01 {
        Ok(1000)
    } else if code == 0x02 {
        Ok(500)
    } else if code == 0x08 {
        Ok(125)
    } else {
        Err(DriverError::Decode("unknown polling rate".to_string()))
    }
}

/// The big-endian 16-bit value at argument bytes `k` and `k + 1`.
pub open spec fn resp_u16(resp: Seq<u8>, k: int) -> u16 {
    (resp_arg(resp, k) as int * 256 + resp_arg(resp, k + 1) as int) as u16
}

/// DPI X and DPI Y, big-endian in arguments 1..3 and 3..5.
pub fn parse_dpi_xy(resp: &[u8]) -> (r: Result<(u16, u16), DriverError>)
    ensures
        r is Ok <==> resp@.len() >= 13,
        r is Ok ==> r->Ok_0 == (resp_u16(resp@, 1), resp_u16(resp@, 3)),
        r is Err ==> r->Err_0.is_decode(),
{
    if resp.len() < 13 {
        return Err(DriverError::Decode("response too short for DPI".to_string()));
    }
    let dpi_x = (resp[9] as u16) * 256 + resp[10] as u16;
    let dpi_y = (resp[11] as u16) * 256 + resp[12] as u16;
    Ok((dpi_x, dpi_y))
}

/// The colour in arguments 0..3.
pub fn parse_led_rgb(resp: &[u8]) -> (r: Result<[u8; 3], DriverError>)
    ensures
        r is Ok <==> resp@.len() >= 11,
        r is Ok ==> r->Ok_0@ == seq![resp_arg(resp@, 0), resp_arg(resp@, 1), resp_arg(resp@, 2)],
        r is Err ==> r->Err_0.is_decode(),
{
    if resp.len() < 11 {
        return Err(DriverError::Decode("response too short for an LED colour".to_string()));
    }
    let rgb = [resp[8], resp[9], resp[10]];
    assert(rgb@ =~= seq![resp_arg(resp@, 0), resp_arg(resp@, 1), resp_arg(resp@, 2)]);
    Ok(rgb)
}

/// The matrix brightness in argument 0.
pub fn parse_matrix_brightness(resp: &[u8]) -> (r: Result<u8, DriverError>)
    ensures
        r is Ok <==> resp@.len() >= 9,
        r is Ok ==> r->Ok_0 == resp_arg(resp@, 0),
        r is Err ==> r->Err_0.is_decode(),
{
    if resp.len() < 9 {
        return Err(DriverError::Decode("response too short for a brightness".to_string()));
    }
    Ok(resp[8])
}

/// Argument bytes that a response of this length holds.
pub open spec fn args_available(resp: Seq<u8>) -> int {
    if resp.len() - 8 < 80 {
        resp.len() - 8
    } else {
        80
    }
}

/// The 4 meaningful bytes of stage record `i` lie inside the response.
pub open spec fn stage_fits(resp: Seq<u8>, i: int) -> bool {
    4 + 7 * i + 4 <= args_available(resp)
}

/// Stage record `i` of a DPI-stages response; it is active when its number
/// is the active stage number of argument 1.
pub open spec fn stage_at(resp: Seq<u8>, i: int) -> DpiStage {
    DpiStage {
        dpi_x: resp_u16(resp, 4 + 7 * i),
        dpi_y: resp_u16(resp, 6 + 7 * i),
        stage: resp_arg(resp, 3 + 7 * i),
        active: resp_arg(resp, 3 + 7 * i) == resp_arg(resp, 1),
    }
}

/// Records decoded from position `i` on: the count in argument 2 bounds them,
/// and decoding stops at the first record that does not fit.
pub open spec fn stage_count_from(resp: Seq<u8>, i: int) -> int
    recommends
        resp.len() >= 11,
    decreases resp_arg(resp, 2) - i,
{
    if i < 0 || i >= resp_arg(resp, 2) || !stage_fits(resp, i) {
        i
    } else {
        stage_count_from(resp, i + 1)
    }
}

pub open spec fn decoded_stages(resp: Seq<u8>) -> Seq<DpiStage> {
    Seq::new(stage_count_from(resp, 0) as nat, |i: int| stage_at(resp, i))
}

/// The DPI stages of a response: active stage number in argument 1, count in
/// argument 2, 7-byte records from argument 3. A truncated response yields
/// the records that fit.
pub fn parse_dpi_stages(resp: &[u8]) -> (r: Result<Vec<DpiStage>, DriverError>)
    ensures
        r is Ok <==> resp@.len() >= 11,
        r is Ok ==> r->Ok_0@ == decoded_stages(resp@),
        r is Err ==> r->Err_0.is_decode(),
{
    if resp.len() < 11 {
        return Err(DriverError::Decode("response too short for DPI stages".to_string()));
    }
    let avail: usize = if resp.len() - 8 < 80 {
        resp.len() - 8
    } else {
        80
    };
    let count = resp[10] as usize;
    let active = resp[9];
    let mut out: Vec<DpiStage> = Vec::new();
    let mut i: usize = 0;
    while i < count && 8 + 7 * i <= avail
        invariant
            resp@.len() >= 11,
            avail == args_available(resp@),
            count == resp_arg(resp@, 2),
            active == resp_arg(resp@, 1),
            i <= count,
            stage_count_from(resp@, i as int) == stage_count_from(resp@, 0),
            out@ == Seq::new(i as nat, |m: int| stage_at(resp@, m)),
        decreases count - i,
    {
        let base: usize = 8 + 3 + 7 * i;
        let stage = resp[base];
        let dpi_x = (resp[base + 1] as u16) * 256 + resp[base + 2] as u16;
        let dpi_y = (resp[base + 3] as u16) * 256 + resp[base + 4] as u16;
        out.push(DpiStage { dpi_x, dpi_y, stage, active: stage == active });
        i = i + 1;
        assert(out@ =~= Seq::new(i as nat, |m: int| stage_at(resp@, m)));
    }
    assert(stage_count_from(resp@, i as int) == i);
    Ok(out)
}

impl RazerReport {
    /// Decodes a whole 90-byte frame, field by field.
    pub fn from_bytes(bytes: &[u8]) -> (r: Result<Self, DriverError>)
        ensures
            r is Ok <==> bytes@.len() == 90,
            r is Ok ==> r->Ok_0.wire() == bytes@,
            r is Err ==> r->Err_0.is_decode(),
    {
        if bytes.len() != RAZER_USB_REPORT_LEN as usize {
            return Err(DriverError::Decode("a frame has 90 bytes".to_string()));
        }
        let mut arguments = [0u8; 80];
        let mut i: usize = 0;
        while i < 80
            invariant
                bytes@.len() == 90,
                i <= 80,
                arguments@.len() == 80,
                forall|j: int| 0 <= j < i ==> arguments@[j] == bytes@[8 + j],
            decreases 80 - i,
        {
            arguments[i] = bytes[8 + i];
            i = i + 1;
        }
        let r = RazerReport {
            status: bytes[0],
            transaction_id: TransactionId(bytes[1]),
            remaining_packets: (bytes[2] as u16) * 256 + bytes[3] as u16,
            protocol_type: bytes[4],
            data_size: bytes[5],
            command_class: bytes[6],
            command_id: CommandId(bytes[7]),
            arguments,
            crc: bytes[88],
            reserved: bytes[89],
        };
        assert(r.wire() =~= bytes@);
        Ok(r)
    }
}

/// A finalized frame checks out: XOR-folding bytes 2 to 88, checksum
/// included, gives zero, and folding bytes 2 to 87 gives the stored checksum.
pub proof fn lemma_finalized_checksum(r: RazerReport)
    requires
        r.is_finalized(),
    ensures
        xor_fold(r.wire().subrange(2, 89)) == 0,
        xor_fold(r.wire().subrange(2, 88)) == r.crc,
{
    let w = r.wire();
    assert(w.subrange(2, 88) =~= r.body().subrange(2, 88));
    assert(w.subrange(2, 89).drop_last() =~= w.subrange(2, 88));
    assert(w.subrange(2, 89).last() == r.crc);
    let c = r.crc;
    assert(c ^ c == 0) by (bit_vector);
}

/// Each supported polling rate survives the trip through a set-polling-rate
/// frame and back; only 1000, 500 and 125 Hz have a code.
pub proof fn lemma_poll_rate_round_trip(rate: u16, r: RazerReport)
    requires
        poll_rate_code(rate) is Some,
        r.is_request(0x00, 0x05, 0x01, seq![poll_rate_code(rate)->0]),
    ensures
        rate == 1000 || rate == 500 || rate == 125,
        poll_rate_response(r.wire()) == Some(rate),
{
    assert(r.wire()[8] == r.arguments@[0]);
    assert(padded(seq![poll_rate_code(rate)->0])[0] == poll_rate_code(rate)->0);
}

/// A code other than 0x01, 0x02 and 0x08 decodes to no polling rate.
pub proof fn lemma_unknown_poll_rate_code(resp: Seq<u8>)
    requires
        resp.len() >= 9,
        resp_arg(resp, 0) != 0x01 && resp_arg(resp, 0) != 0x02 && resp_arg(resp, 0) != 0x08,
    ensures
        poll_rate_response(resp) is None,
{
}

/// Any in-range DPI pair, the bounds 100 and 35000 included, survives the
/// trip through a set-DPI frame and the DPI decoder.
pub proof fn lemma_dpi_xy_round_trip(dpi_x: u16, dpi_y: u16, r: RazerReport)
    requires
        dpi_in_range(dpi_x),
        dpi_in_range(dpi_y),
        r.is_request(0x04, 0x05, 0x07, seq![VARSTORE] + be_bytes(dpi_x) + be_bytes(dpi_y) + seq![0u8, 0u8]),
    ensures
        r.wire().len() >= 13,
        resp_u16(r.wire(), 1) == dpi_x,
        resp_u16(r.wire(), 3) == dpi_y,
{
    let args = seq![VARSTORE] + be_bytes(dpi_x) + be_bytes(dpi_y) + seq![0u8, 0u8];
    let w = r.wire();
    assert(w[9] == args[1] && w[10] == args[2] && w[11] == args[3] && w[12] == args[4]);
}

/// A valid DPI stage set survives the trip through a set-DPI-stages frame
/// and the stage decoder: same stages, same numbers, same DPI, same active
/// flags, same order.
pub proof fn lemma_dpi_stages_round_trip(s: Seq<DpiStage>, r: RazerReport)
    requires
        valid_stage_set(s),
        r.encodes_stages(s),
    ensures
        decoded_stages(r.wire()) == s,
{
    let w = r.wire();
    assert(w.len() == 90);
    assert forall|j: int| 0 <= j < 80 implies w[8 + j] == r.arguments@[j] by {}
    let n = s.len() as int;
    assert(resp_arg(w, 2) == n);
    let k = choose|k: int|
        0 <= k < s.len() && s[k].active && forall|o: int|
            0 <= o < s.len() && o != k ==> !(#[trigger] s[o]).active;
    assert(resp_arg(w, 1) == s[k].stage);
    lemma_stage_count(w, n, 0);
    assert forall|i: int| 0 <= i < n implies stage_at(w, i) == s[i] by {
        assert(r.holds_stage_record(i, s[i]));
        let st = s[i];
        assert(resp_u16(w, 4 + 7 * i) == st.dpi_x);
        assert(resp_u16(w, 6 + 7 * i) == st.dpi_y);
        if i != k {
            assert(s[i].stage != s[k].stage);
            assert(!s[i].active);
        }
    }
    assert(decoded_stages(w) =~= s);
}

proof fn lemma_stage_count(w: Seq<u8>, n: int, i: int)
    requires
        w.len() == 90,
        resp_arg(w, 2) == n,
        0 <= i <= n <= 5,
    ensures
        stage_count_from(w, i) == n,
    decreases n - i,
{
    if i < n {
        assert(stage_fits(w, i));
        lemma_stage_count(w, n, i + 1);
    }
}

} // verus!
