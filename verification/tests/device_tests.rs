use usb_echo::device::apply_events;
use usb_echo::device::BusEvent;
use usb_echo::device::DescriptorError;
use usb_echo::device::DeviceDescriptors;
use usb_echo::device::DeviceState;
use usb_echo::device::endpoints_active;
use usb_echo::device::string_ok;
use usb_echo::device::transition;
use usb_echo::device::MAX_STRING_LEN;
use usb_echo::device::USB_CLASS_CDC;

#[test]
fn enumeration_chain() {
    let s0 = DeviceState::DefaultState;
    let s1 = transition(s0, BusEvent::AddressAssigned);
    assert_eq!(s1, DeviceState::Addressed);
    let s2 = transition(s1, BusEvent::ConfigurationSelected);
    assert_eq!(s2, DeviceState::Configured);
    assert!(endpoints_active(s2));
    assert!(!endpoints_active(s0));
    assert!(!endpoints_active(s1));
}

#[test]
fn chain_cannot_be_skipped() {
    // Selecting a configuration before an address is assigned does nothing.
    let s = transition(DeviceState::DefaultState, BusEvent::ConfigurationSelected);
    assert_eq!(s, DeviceState::DefaultState);
    // Assigning an address to an already-addressed device does nothing.
    let s = transition(DeviceState::Addressed, BusEvent::AddressAssigned);
    assert_eq!(s, DeviceState::Addressed);
}

#[test]
fn reset_and_suspend_act_from_any_state() {
    for s in [
        DeviceState::DefaultState,
        DeviceState::Addressed,
        DeviceState::Configured,
        DeviceState::Suspended,
    ] {
        assert_eq!(transition(s, BusEvent::Reset), DeviceState::DefaultState);
        assert_eq!(transition(s, BusEvent::SuspendSignaled), DeviceState::Suspended);
    }
}

#[test]
fn event_batches_fold_over_the_table() {
    let enumeration = vec![
        BusEvent::Reset,
        BusEvent::AddressAssigned,
        BusEvent::ConfigurationSelected,
    ];
    let s = apply_events(DeviceState::Suspended, &enumeration);
    assert_eq!(s, DeviceState::Configured);

    // Without a configuration selection the device stays unconfigured.
    let noisy = vec![
        BusEvent::Reset,
        BusEvent::AddressAssigned,
        BusEvent::SuspendSignaled,
        BusEvent::Reset,
        BusEvent::AddressAssigned,
    ];
    let s = apply_events(DeviceState::DefaultState, &noisy);
    assert_eq!(s, DeviceState::Addressed);
    assert!(!endpoints_active(s));

    let s = apply_events(DeviceState::Configured, &Vec::new());
    assert_eq!(s, DeviceState::Configured);
}

#[test]
fn descriptor_strings_checked() {
    assert!(string_ok(&b"Fake company".to_vec()));
    assert!(string_ok(&Vec::new()));
    assert!(string_ok(&vec![0x41u8; MAX_STRING_LEN]));
    assert!(!string_ok(&vec![0x41u8; MAX_STRING_LEN + 1]));
    assert!(!string_ok(&vec![0x80u8]));
    assert!(!string_ok(&b"caf\xc3\xa9".to_vec()));
}

#[test]
fn descriptors_built_from_valid_strings() {
    let d = DeviceDescriptors::build(
        0x16c0,
        0x27db,
        b"Fake company".to_vec(),
        b"Serial port".to_vec(),
        b"TEST".to_vec(),
    )
    .unwrap();
    assert_eq!(d.vendor_id, 0x16c0);
    assert_eq!(d.product_id, 0x27db);
    assert_eq!(d.manufacturer, b"Fake company".to_vec());
    assert_eq!(d.product, b"Serial port".to_vec());
    assert_eq!(d.serial_number, b"TEST".to_vec());
    assert_eq!(d.device_class, USB_CLASS_CDC);
    assert_eq!(d.device_class, 0x02);
}

#[test]
fn first_invalid_string_is_reported() {
    let long = vec![0x41u8; 127];
    let e = DeviceDescriptors::build(1, 2, long.clone(), b"p".to_vec(), b"s".to_vec());
    assert_eq!(e.unwrap_err(), DescriptorError::ManufacturerInvalid);
    let e = DeviceDescriptors::build(1, 2, b"m".to_vec(), vec![0xffu8], b"s".to_vec());
    assert_eq!(e.unwrap_err(), DescriptorError::ProductInvalid);
    let e = DeviceDescriptors::build(1, 2, b"m".to_vec(), b"p".to_vec(), long);
    assert_eq!(e.unwrap_err(), DescriptorError::SerialNumberInvalid);
}
