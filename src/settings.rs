//! The user's desired device settings, as the settings store hands them over.
use vstd::prelude::*;

verus! {

/// One DPI preset. `stage` is 1-based.
#[derive(Debug, Clone, Copy, PartialEq, Eq)]
pub struct DpiStage {
    pub dpi_x: u16,
    pub dpi_y: u16,
    pub stage: u8,
    pub active: bool,
}


/// Settings pushed to the device on start, on reconnect and on power-on.
#[derive(Debug, Clone)]
pub struct MouseSettings {
    pub dpi_x: u16,
    pub dpi_y: u16,
    pub polling_rate: u16,
    pub rgb_color: [u8; 3],
    pub brightness: u8,
    pub scroll_inverted: bool,
    pub smart_wheel_enabled: bool,
    pub auto_update: bool,
    pub dpi_stages: Vec<DpiStage>,
}

pub fn default_dpi_x() -> (r: u16)
    ensures
        r == 3200,
{
    3200
}

pub fn default_dpi_y() -> (r: u16)
    ensures
        r == 3200,
{
    3200
}

pub fn default_polling_rate() -> (r: u16)
    ensures
        r == 1000,
{
    1000
}

pub fn default_rgb_color() -> (r: [u8; 3])
    ensures
        r@ == seq![255u8, 255u8, 255u8],
{
    let r = [255u8, 255u8, 255u8];
    assert(r@ =~= seq![255u8, 255u8, 255u8]);
    r
}

pub fn default_brightness() -> (r: u8)
    ensures
        r == 100,
{
    100
}

pub fn default_scroll_inverted() -> (r: bool)
    ensures
        !r,
{
    false
}

pub fn default_smart_wheel_enabled() -> (r: bool)
    ensures
        !r,
{
    false
}

pub fn default_auto_update() -> (r: bool)
    ensures
        !r,
{
    false
}

/// The default stages: 400, 800, 1600, 3200 and 6400 DPI on both axes,
/// numbered 1 to 5, stage 4 active.
pub open spec fn default_stage_set() -> Seq<DpiStage> {
    seq![
        DpiStage { dpi_x: 400, dpi_y: 400, stage: 1, active: false },
        DpiStage { dpi_x: 800, dpi_y: 800, stage: 2, active: false },
        DpiStage { dpi_x: 1600, dpi_y: 1600, stage: 3, active: false },
        DpiStage { dpi_x: 3200, dpi_y: 3200, stage: 4, active: true },
        DpiStage { dpi_x: 6400, dpi_y: 6400, stage: 5, active: false },
    ]
}

pub fn default_dpi_stages() -> (r: Vec<DpiStage>)
    ensures
        r@ == default_stage_set(),
{
    let r = vec![
        DpiStage { dpi_x: 400, dpi_y: 400, stage: 1, active: false },
        DpiStage { dpi_x: 800, dpi_y: 800, stage: 2, active: false },
        DpiStage { dpi_x: 1600, dpi_y: 1600, stage: 3, active: false },
        DpiStage { dpi_x: 3200, dpi_y: 3200, stage: 4, active: true },
        DpiStage { dpi_x: 6400, dpi_y: 6400, stage: 5, active: false },
    ];
    assert(r@ =~= default_stage_set());
    r
}

impl MouseSettings {
    pub open spec fn is_default(&self) -> bool {
        &&& self.dpi_x == 3200
        &&& self.dpi_y == 3200
        &&& self.polling_rate == 1000
        &&& self.rgb_color@ == seq![255u8, 255u8, 255u8]
        &&& self.brightness == 100
        &&& !self.scroll_inverted
        &&& !self.smart_wheel_enabled
        &&& !self.auto_update
        &&& self.dpi_stages@ == default_stage_set()
    }
}

impl Default for MouseSettings {
    fn default() -> (r: Self)
        ensures
            r.is_default(),
    {
        MouseSettings {
            dpi_x: default_dpi_x(),
            dpi_y: default_dpi_y(),
            polling_rate: default_polling_rate(),
            rgb_color: default_rgb_color(),
            brightness: default_brightness(),
            scroll_inverted: default_scroll_inverted(),
            smart_wheel_enabled: default_smart_wheel_enabled(),
            auto_update: default_auto_update(),
            dpi_stages: default_dpi_stages(),
        }
    }
}

} // verus!
