//! Settings synchronisation: what to do on start, on hot-plug and on power
//! transitions, and the ordered commands that push a settings record to the
//! device.
use vstd::prelude::*;
use crate::consts::{VARSTORE, ZERO_LED};
use crate::error::DriverError;
use crate::liveness::Transition;
use crate::report::{be_bytes, dpi_in_range, poll_rate_code, valid_stage_set, RazerReport};
use crate::settings::MouseSettings;

verus! {

/// Scroll-direction preference restored on the host while the mouse is absent.
pub const SAFE_SCROLL_INVERTED: bool = true;

/// Something that happened to the device or the process.
#[derive(Debug, Clone, Copy, PartialEq, Eq)]
pub enum SyncEvent {
    /// The process started; `alive` is the first liveness probe's result.
    Startup { alive: bool },
    /// The receiver was plugged in.
    DeviceConnected,
    /// The receiver was unplugged.
    DeviceDisconnected,
    /// The liveness poller saw the device power on or off.
    Power(Transition),
}

/// What the host does in answer.
#[derive(Debug, Clone, Copy, PartialEq, Eq)]
pub enum SyncAction {
    /// Push the stored settings to the device.
    ApplySettings,
    /// Set the host's scroll-direction preference to this value.
    SetScrollInverted(bool),
    Nothing,
}

pub open spec fn sync_action_of(event: SyncEvent) -> SyncAction {
    match event {
        SyncEvent::Startup { alive } => if alive {
            SyncAction::ApplySettings
        } else {
            SyncAction::Nothing
        },
        SyncEvent::DeviceConnected => SyncAction::ApplySettings,
        SyncEvent::Power(Transition::BecameAlive) => SyncAction::ApplySettings,
        SyncEvent::DeviceDisconnected => SyncAction::SetScrollInverted(SAFE_SCROLL_INVERTED),
        SyncEvent::Power(Transition::BecameNotAlive) => SyncAction::SetScrollInverted(
            SAFE_SCROLL_INVERTED,
        ),
    }
}

/// Presence brings the stored settings back; absence restores the host's
/// safe scroll direction, whatever the stored preference.
pub fn sync_action(event: SyncEvent) -> (r: SyncAction)
    ensures
        r == sync_action_of(event),
{
    match event {
        SyncEvent::Startup { alive } => if alive {
            SyncAction::ApplySettings
        } else {
            SyncAction::Nothing
        },
        SyncEvent::DeviceConnected => SyncAction::ApplySettings,
        SyncEvent::DeviceDisconnected => SyncAction::SetScrollInverted(SAFE_SCROLL_INVERTED),
        SyncEvent::Power(t) => match t {
            Transition::BecameAlive => SyncAction::ApplySettings,
            Transition::BecameNotAlive => SyncAction::SetScrollInverted(SAFE_SCROLL_INVERTED),
        },
    }
}

/// `r` is the request `is_request` describes, finalized for transmission.
pub open spec fn is_finalized_request(r: RazerReport, class: u8, cmd: u8, size: u8, args: Seq<u8>) -> bool {
    &&& (RazerReport { crc: 0, ..r }).is_request(class, cmd, size, args)
    &&& r.is_finalized()
}

fn finalized(mut r: RazerReport) -> (out: RazerReport)
    ensures
        out == (RazerReport { crc: out.crc, ..r }),
        out.is_finalized(),
{
    r.finalize();
    r
}

fn finalized_result(r: Result<RazerReport, DriverError>) -> (out: Result<RazerReport, DriverError>)
    ensures
        out is Ok <==> r is Ok,
        out is Ok ==> out->Ok_0 == (RazerReport { crc: out->Ok_0.crc, ..r->Ok_0 }) && out->Ok_0.is_finalized(),
        out is Err ==> out == r,
{
    match r {
        Ok(f) => Ok(finalized(f)),
        Err(e) => Err(e),
    }
}

/// The finalized commands that push `settings` to the device, in the order
/// they are issued: DPI, DPI stages, polling rate, static colour of the zero
/// LED, brightness. A command whose value the protocol refuses stands as its
/// error; the others are still issued.
pub fn settings_commands(settings: &MouseSettings) -> (r: Vec<Result<RazerReport, DriverError>>)
    ensures
        r@.len() == 5,
        r@[0] is Ok <==> dpi_in_range(settings.dpi_x) && dpi_in_range(settings.dpi_y),
        r@[0] is Ok ==> is_finalized_request(
            r@[0]->Ok_0,
            0x04,
            0x05,
            0x07,
            seq![VARSTORE] + be_bytes(settings.dpi_x) + be_bytes(settings.dpi_y) + seq![0u8, 0u8],
        ),
        r@[1] is Ok <==> valid_stage_set(settings.dpi_stages@),
        r@[1] is Ok ==> (RazerReport { crc: 0, ..r@[1]->Ok_0 }).encodes_stages(settings.dpi_stages@)
            && r@[1]->Ok_0.is_finalized(),
        r@[2] is Ok <==> poll_rate_code(settings.polling_rate) is Some,
        r@[2] is Ok ==> is_finalized_request(
            r@[2]->Ok_0,
            0x00,
            0x05,
            0x01,
            seq![poll_rate_code(settings.polling_rate)->0],
        ),
        r@[3] is Ok,
        is_finalized_request(
            r@[3]->Ok_0,
            0x0F,
            0x06,
            0x05,
            seq![VARSTORE, ZERO_LED, settings.rgb_color[0], settings.rgb_color[1], settings.rgb_color[2]],
        ),
        r@[4] is Ok,
        is_finalized_request(r@[4]->Ok_0, 0x0F, 0x04, 0x03, seq![VARSTORE, 0x00u8, settings.brightness]),
        forall|i: int| 0 <= i < 5 && (#[trigger] r@[i]) is Err ==> r@[i]->Err_0.is_invalid_parameter(),
{
    let mut cmds: Vec<Result<RazerReport, DriverError>> = Vec::new();
    cmds.push(finalized_result(RazerReport::set_dpi_xy_report(settings.dpi_x, settings.dpi_y)));
    cmds.push(finalized_result(RazerReport::set_dpi_stages_report(settings.dpi_stages.as_slice())));
    cmds.push(finalized_result(RazerReport::set_poll_rate_report(settings.polling_rate)));
    cmds.push(Ok(finalized(RazerReport::set_matrix_effect_static_report(settings.rgb_color, ZERO_LED))));
    cmds.push(Ok(finalized(RazerReport::set_matrix_brightness_report(settings.brightness))));
    cmds
}

} // verus!
