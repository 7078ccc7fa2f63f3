//! The host's scroll-direction preference: one boolean that a platform can
//! set and read.
use vstd::prelude::*;
use crate::error::{DriverError, DriverResult};

verus! {

/// Access to the host's "natural scrolling" preference.
pub trait PreferencesDriver {
    fn set_mouse_wheel_inverted(inverted: bool) -> DriverResult<()>;

    fn is_mouse_wheel_inverted() -> DriverResult<bool>;
}

/// Linux has no such preference toggle here.
pub struct LinuxPreferencesDriver;

impl LinuxPreferencesDriver {
    pub fn new() -> (r: Self) {
        LinuxPreferencesDriver
    }

    /// Always fails with `NotImplemented`.
    pub fn set_inverted(inverted: bool) -> (r: DriverResult<()>)
        ensures
            r is Err && r->Err_0 is NotImplemented,
    {
        Err(DriverError::NotImplemented("set_mouse_wheel_inverted is not implemented for Linux".to_string()))
    }

    /// Always fails with `NotImplemented`.
    pub fn inverted() -> (r: DriverResult<bool>)
        ensures
            r is Err && r->Err_0 is NotImplemented,
    {
        Err(DriverError::NotImplemented("is_mouse_wheel_inverted is not implemented for Linux".to_string()))
    }
}

impl PreferencesDriver for LinuxPreferencesDriver {
    fn set_mouse_wheel_inverted(inverted: bool) -> DriverResult<()> {
        Self::set_inverted(inverted)
    }

    fn is_mouse_wheel_inverted() -> DriverResult<bool> {
        Self::inverted()
    }
}

/// Windows has no such preference toggle here.
pub struct WindowsPreferencesDriver;

impl WindowsPreferencesDriver {
    pub fn new() -> (r: Self) {
        WindowsPreferencesDriver
    }

    /// Always fails with `NotImplemented`.
    pub fn set_inverted(inverted: bool) -> (r: DriverResult<()>)
        ensures
            r is Err && r->Err_0 is NotImplemented,
    {
        Err(DriverError::NotImplemented("set_mouse_wheel_inverted is not implemented for Windows".to_string()))
    }

    /// Always fails with `NotImplemented`.
    pub fn inverted() -> (r: DriverResult<bool>)
        ensures
            r is Err && r->Err_0 is NotImplemented,
    {
        Err(DriverError::NotImplemented("is_mouse_wheel_inverted is not implemented for Windows".to_string()))
    }
}

impl PreferencesDriver for WindowsPreferencesDriver {
    fn set_mouse_wheel_inverted(inverted: bool) -> DriverResult<()> {
        Self::set_inverted(inverted)
    }

    fn is_mouse_wheel_inverted() -> DriverResult<bool> {
        Self::inverted()
    }
}

} // verus!
