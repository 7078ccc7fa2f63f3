//! Configuration core for a wireless gaming mouse that speaks a vendor HID
//! feature-report protocol: the frame codec, the transport decisions, the
//! hot-plug registry, liveness detection and settings synchronisation.
pub mod consts;
pub mod error;
pub mod hotplug;
pub mod ioreturn;
pub mod liveness;
pub mod preferences;
pub mod report;
pub mod response;
pub mod retry;
pub mod service;
pub mod settings;
pub mod sync;
pub mod transport;
pub mod types;
