use razerx::error::DriverError;
use razerx::hotplug::{is_primary_mouse_interface, HotplugKind, HotplugRegistry, PresenceTracker};
use razerx::ioreturn::{init_ior_errors, io_return_name, open_outcome_of, K_IO_RETURN_EXCLUSIVE_ACCESS};
use razerx::liveness::{response_shows_alive, Liveness, LivenessTracker, Transition};
use razerx::preferences::{LinuxPreferencesDriver, PreferencesDriver, WindowsPreferencesDriver};
use razerx::retry::{OpenAction, OpenOutcome, OpenRetry, OPEN_RETRY_DELAY_MS};
use razerx::service::{LaunchdServiceInstaller, SystemdServiceInstaller, WindowsServiceInstaller};
use razerx::transport::{
    check_transfer, find_device, get_feature_request, hidraw_feature_ioctl, set_feature_request,
    with_report_id, without_report_id, ControlRequest, Device,
};
use razerx::types::{BasiliskV3Pro, DeviceCapability, DeviceCollection, DeviceInfo, MouseCapability};

#[test]
fn liveness_fires_once_per_change() {
    let probes = [true, true, false, false, true];
    let mut tracker = LivenessTracker::new();
    assert!(!tracker.is_alive());
    let mut fired = Vec::new();
    for (i, alive) in probes.iter().enumerate() {
        if let Some(t) = tracker.observe(*alive) {
            fired.push((i, t));
        }
    }
    assert_eq!(fired, vec![(2, Transition::BecameNotAlive), (4, Transition::BecameAlive)]);
    assert!(tracker.is_alive());
    assert_eq!(tracker.state, Liveness::Alive);
}

#[test]
fn liveness_not_alive_until_a_probe_succeeds() {
    let mut tracker = LivenessTracker::new();
    assert_eq!(tracker.observe(false), None);
    assert!(!tracker.is_alive());
    assert_eq!(tracker.observe(true), Some(Transition::BecameAlive));
    assert_eq!(tracker.observe(true), None);
}

#[test]
fn liveness_verdict_from_status_byte() {
    assert!(response_shows_alive(&[0x02, 0x1f]));
    assert!(!response_shows_alive(&[0x04, 0x1f]));
    assert!(!response_shows_alive(&[0x01]));
    assert!(!response_shows_alive(&[]));
}

fn run_open(outcomes: &[OpenOutcome]) -> (u32, Vec<OpenAction>, u64) {
    let mut retry = OpenRetry::new();
    let mut actions = Vec::new();
    let mut waited = 0u64;
    for outcome in outcomes {
        if !retry.may_attempt() {
            break;
        }
        let action = retry.record(*outcome);
        actions.push(action);
        match action {
            OpenAction::RetryAfter(ms) => waited += ms,
            _ => break,
        }
    }
    (retry.attempts, actions, waited)
}

#[test]
fn open_succeeds_after_four_busy_attempts() {
    let mut outcomes = vec![OpenOutcome::ExclusiveAccess; 4];
    outcomes.push(OpenOutcome::Opened);
    let (attempts, actions, waited) = run_open(&outcomes);
    assert_eq!(attempts, 5);
    assert_eq!(actions.len(), 5);
    assert_eq!(actions[4], OpenAction::Done);
    assert!(actions[..4].iter().all(|a| *a == OpenAction::RetryAfter(200)));
    assert!(waited >= 4 * 200);
    assert_eq!(waited, 4 * OPEN_RETRY_DELAY_MS);
}

#[test]
fn open_gives_up_after_five_busy_attempts() {
    let outcomes = vec![OpenOutcome::ExclusiveAccess; 8];
    let (attempts, actions, _) = run_open(&outcomes);
    assert_eq!(attempts, 5);
    assert_eq!(actions.len(), 5);
    assert_eq!(actions[4], OpenAction::GiveUp);
    let mut retry = OpenRetry::new();
    for _ in 0..5 {
        retry.record(OpenOutcome::ExclusiveAccess);
    }
    assert!(!retry.may_attempt());
}

#[test]
fn other_open_failures_are_not_retried() {
    let (attempts, actions, waited) = run_open(&[OpenOutcome::Failed, OpenOutcome::Opened]);
    assert_eq!((attempts, waited), (1, 0));
    assert_eq!(actions, vec![OpenAction::GiveUp]);
}

#[test]
fn iokit_codes() {
    assert_eq!(open_outcome_of(0), OpenOutcome::Opened);
    assert_eq!(open_outcome_of(K_IO_RETURN_EXCLUSIVE_ACCESS), OpenOutcome::ExclusiveAccess);
    assert_eq!(open_outcome_of(0xE00002D5), OpenOutcome::Failed);
    assert_eq!(io_return_name(0xE00002C5), Some("kIOReturnExclusiveAccess"));
    assert_eq!(io_return_name(0xE00002CB), None);
    assert_eq!(io_return_name(0), None);
    let table = init_ior_errors();
    assert_eq!(table.entries.len(), 52);
    assert_eq!(table.describe(0xE00002BC), "kIOReturnError");
    assert_eq!(table.describe(0xE0000001), "kIOReturnInvalid");
    assert_eq!(table.describe(0xE00002F0), "kIOReturnNotFound");
    assert_eq!(table.describe(0x1234), "Unknown");
}

#[test]
fn hotplug_reaches_matching_registrations() {
    let mut reg = HotplugRegistry::new();
    reg.register(0x1532, 0x00AB, HotplugKind::Connected, 0);
    reg.register(0x1532, 0x00AB, HotplugKind::Disconnected, 1);
    reg.register(0x1532, 0x0099, HotplugKind::Connected, 2);
    reg.register(0x1532, 0x00AB, HotplugKind::Connected, 3);
    assert_eq!(reg.callbacks_for(0x1532, 0x00AB, HotplugKind::Connected, 0x01, 0x02), vec![0, 3]);
    assert_eq!(reg.callbacks_for(0x1532, 0x00AB, HotplugKind::Disconnected, 0x01, 0x02), vec![1]);
    assert_eq!(reg.callbacks_for(0x1532, 0x00AB, HotplugKind::Connected, 0x01, 0x06), Vec::<usize>::new());
    assert!(is_primary_mouse_interface(0x01, 0x02));
    assert!(!is_primary_mouse_interface(0x0C, 0x01));
}

#[test]
fn hotplug_listener_starts_once() {
    let mut reg = HotplugRegistry::new();
    assert!(reg.claim_listener_start());
    assert!(!reg.claim_listener_start());
    reg.register(1, 2, HotplugKind::Connected, 0);
    assert!(!reg.claim_listener_start());
}

#[test]
fn device_lookup() {
    let devices = vec![
        Device { name: "Keyboard".to_string(), vendor_id: 0x046d, product_id: 0xc31c },
        Device { name: "Receiver".to_string(), vendor_id: 0x1532, product_id: 0x00AB },
        Device { name: "Other".to_string(), vendor_id: 0x1532, product_id: 0x00AB },
    ];
    assert_eq!(find_device(&devices, 0x1532, 0x00AB), Some(1));
    assert_eq!(find_device(&devices, 0x1532, 0x00AC), None);
    assert_eq!(find_device(&[], 0x1532, 0x00AB), None);
}

#[test]
fn control_transfers_of_an_exchange() {
    assert_eq!(
        set_feature_request(0, 90),
        ControlRequest { request_type: 0x21, request: 0x09, value: 0x0300, index: 0, length: 90 }
    );
    assert_eq!(
        get_feature_request(2, 90),
        ControlRequest { request_type: 0xA1, request: 0x01, value: 0x0300, index: 2, length: 90 }
    );
}

#[test]
fn transfer_results() {
    assert!(check_transfer(None, 90, 90).is_ok());
    assert!(matches!(check_transfer(None, 90, 89), Err(DriverError::IncompleteTransfer)));
    assert!(matches!(check_transfer(None, 90, 91), Err(DriverError::IncompleteTransfer)));
    match check_transfer(Some("pipe stalled".to_string()), 90, 90) {
        Err(DriverError::UsbError(detail)) => assert_eq!(detail, "pipe stalled"),
        other => panic!("unexpected {:?}", other),
    }
}

#[test]
fn hidraw_ioctl_numbers() {
    // HIDIOCSFEATURE(91) and HIDIOCGFEATURE(91) on Linux
    assert_eq!(hidraw_feature_ioctl(false, 91), 0xC05B4806);
    assert_eq!(hidraw_feature_ioctl(true, 91), 0xC05B4807);
}

#[test]
fn report_id_prefix() {
    assert_eq!(with_report_id(&[1, 2, 3]), vec![0, 1, 2, 3]);
    assert_eq!(without_report_id(&[0, 1, 2, 3, 9], 4), vec![1, 2, 3]);
    assert_eq!(without_report_id(&[0, 1], 0), Vec::<u8>::new());
    assert_eq!(without_report_id(&[0, 1], 3), Vec::<u8>::new());
}

#[test]
fn preference_toggle_missing_on_linux_and_windows() {
    let _ = LinuxPreferencesDriver::new();
    let _ = WindowsPreferencesDriver::new();
    assert!(matches!(LinuxPreferencesDriver::set_mouse_wheel_inverted(true), Err(DriverError::NotImplemented(_))));
    assert!(matches!(LinuxPreferencesDriver::is_mouse_wheel_inverted(), Err(DriverError::NotImplemented(_))));
    assert!(matches!(WindowsPreferencesDriver::set_mouse_wheel_inverted(false), Err(DriverError::NotImplemented(_))));
    assert!(matches!(WindowsPreferencesDriver::is_mouse_wheel_inverted(), Err(DriverError::NotImplemented(_))));
}

#[test]
fn service_files() {
    let s = SystemdServiceInstaller::new("razerx");
    assert_eq!(s.unit_file_name(), "razerx.service");
    assert_eq!(
        s.unit_file_contents("/usr/bin/razerx"),
        "[Unit]\nDescription=Rust app: razerx\n\n[Service]\nExecStart=/usr/bin/razerx\nRestart=on-failure\n\n[Install]\nWantedBy=default.target\n"
    );
    let l = LaunchdServiceInstaller::new("com.example.razerx");
    assert_eq!(l.plist_file_name(), "com.example.razerx.plist");
    assert!(l.plist_contents("/Applications/RazerX").contains("<string>com.example.razerx</string>"));
    assert!(l.plist_contents("/Applications/RazerX").contains("<array><string>/Applications/RazerX</string></array>"));
    assert_eq!(WindowsServiceInstaller::new("RazerX").name, "RazerX");
}

#[test]
fn device_collection_keeps_order() {
    let mut c = DeviceCollection::new();
    assert!(c.get_devices().is_empty());
    for name in ["a", "b"] {
        c.add_device(DeviceInfo {
            name: name.to_string(),
            vendor_id: "1532".to_string(),
            product_id: "00ab".to_string(),
            device_type: "mouse".to_string(),
            features: vec![],
        });
    }
    let names: Vec<&str> = c.get_devices().iter().map(|d| d.name.as_str()).collect();
    assert_eq!(names, vec!["a", "b"]);
}

#[test]
fn product_profile() {
    assert_eq!((BasiliskV3Pro::vendor_id(), BasiliskV3Pro::product_id()), (0x1532, 0x00AB));
    let caps = BasiliskV3Pro::capabilities();
    assert_eq!(caps.len(), 4);
    assert_eq!(caps[0], DeviceCapability::MouseCapability(MouseCapability::DPI));
}

#[test]
fn hotplug_unregister_keeps_the_rest() {
    let mut reg = HotplugRegistry::new();
    reg.register(0x1532, 0x00AB, HotplugKind::Connected, 0);
    reg.register(0x1532, 0x00AB, HotplugKind::Connected, 1);
    reg.register(0x1532, 0x00AB, HotplugKind::Disconnected, 0);
    reg.unregister(0);
    assert_eq!(reg.registrations.len(), 1);
    assert_eq!(reg.callbacks_for(0x1532, 0x00AB, HotplugKind::Connected, 0x01, 0x02), vec![1]);
    assert!(reg.callbacks_for(0x1532, 0x00AB, HotplugKind::Disconnected, 0x01, 0x02).is_empty());
}

#[test]
fn presence_changes_notify_once() {
    let mut t = PresenceTracker::new(false);
    assert_eq!(t.observe(false), None);
    assert_eq!(t.observe(true), Some(HotplugKind::Connected));
    assert_eq!(t.observe(true), None);
    assert_eq!(t.observe(false), Some(HotplugKind::Disconnected));
    assert!(!t.present);
}

#[test]
fn iokit_table_codes_are_unique() {
    let table = init_ior_errors();
    let mut codes: Vec<u32> = table.entries.iter().map(|e| e.0).collect();
    codes.sort();
    codes.dedup();
    assert_eq!(codes.len(), table.entries.len());
    assert_eq!(table.describe(0xE00002CB), "Unknown");
}
