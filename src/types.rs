//! Descriptions of supported devices, as the host's device list shows them.
use vstd::prelude::*;

verus! {

#[derive(Debug, Clone, Copy, PartialEq, Eq)]
pub enum DeviceType {
    Mouse,
    Keyboard,
    Headset,
    Other,
}

#[derive(Debug, Clone, Copy, PartialEq, Eq)]
pub enum Feature {
    RGB,
    RGBExtended,
    BatteryStatus,
}

/// A supported device: its name, ids, kind and feature names.
#[derive(Debug, Clone)]
pub struct DeviceInfo {
    pub name: String,
    pub vendor_id: String,
    pub product_id: String,
    pub device_type: String,
    pub features: Vec<String>,
}

/// The supported devices, in the order they were added.
pub struct DeviceCollection {
    pub devices: Vec<DeviceInfo>,
}

impl DeviceCollection {
    pub fn new() -> (r: Self)
        ensures
            r.devices@.len() == 0,
    {
        DeviceCollection { devices: Vec::new() }
    }

    pub fn add_device(&mut self, device: DeviceInfo)
        ensures
            final(self).devices@ == old(self).devices@.push(device),
    {
        self.devices.push(device);
    }

    pub fn get_devices(&self) -> (r: &Vec<DeviceInfo>)
        ensures
            r@ == self.devices@,
    {
        &self.devices
    }
}

/// What a device can be configured for.
#[derive(Debug, Clone, Copy, PartialEq, Eq)]
pub enum DeviceCapability {
    MouseCapability(MouseCapability),
    KeyboardCapability(KeyboardCapability),
}

#[derive(Debug, Clone, Copy, PartialEq, Eq)]
pub enum MouseCapability {
    DPI,
    PollingRate,
    RGB,
    Brightness,
}

#[derive(Debug, Clone, Copy, PartialEq, Eq)]
pub enum KeyboardCapability {
    RGB,
}

/// Profile of the one product this library drives.
pub struct BasiliskV3Pro;

impl BasiliskV3Pro {
    pub open spec fn spec_capabilities() -> Seq<DeviceCapability> {
        seq![
            DeviceCapability::MouseCapability(MouseCapability::DPI),
            DeviceCapability::MouseCapability(MouseCapability::PollingRate),
            DeviceCapability::MouseCapability(MouseCapability::RGB),
            DeviceCapability::MouseCapability(MouseCapability::Brightness),
        ]
    }

    pub fn vendor_id() -> (r: u16)
        ensures
            r == 0x1532,
    {
        crate::consts::RAZER_USB_VENDOR_ID
    }

    pub fn product_id() -> (r: u16)
        ensures
            r == 0x00AB,
    {
        crate::consts::RAZER_BASILISK_V3_PRO_ID
    }

    pub fn device_type() -> (r: DeviceType)
        ensures
            r == DeviceType::Mouse,
    {
        DeviceType::Mouse
    }

    /// DPI, polling rate, colour and brightness.
    pub fn capabilities() -> (r: Vec<DeviceCapability>)
        ensures
            r@ == Self::spec_capabilities(),
    {
        let r = vec![
            DeviceCapability::MouseCapability(MouseCapability::DPI),
            DeviceCapability::MouseCapability(MouseCapability::PollingRate),
            DeviceCapability::MouseCapability(MouseCapability::RGB),
            DeviceCapability::MouseCapability(MouseCapability::Brightness),
        ];
        assert(r@ =~= Self::spec_capabilities());
        r
    }
}

} // verus!
