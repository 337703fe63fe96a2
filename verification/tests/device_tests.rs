use xr2280x_hid::device::{
    are_serial_numbers_similar, capabilities_from_probe, device_find, find_similar_serial_key,
    interface_for_product, is_xr2280x_interface, select_by_index, select_by_serial, select_first,
};
use xr2280x_hid::register::RegisterInterface;
use xr2280x_hid::{Error, InterfaceInfo, XrDeviceDetails, XrDeviceInfo, EXAR_VID, XR2280X_EDGE_PID, XR2280X_I2C_PID};

fn device(serial: &str, product: &str) -> XrDeviceInfo {
    XrDeviceInfo {
        vid: 0x04E2,
        serial_number: Some(serial.to_string()),
        product_string: Some(product.to_string()),
        i2c_interface: None,
        edge_interface: None,
    }
}

fn interface(pid: u16, serial: Option<&str>, path: &str) -> InterfaceInfo {
    InterfaceInfo {
        vid: EXAR_VID,
        pid,
        path: path.as_bytes().to_vec(),
        serial_number: serial.map(|s| s.to_string()),
        product_string: Some("XR22802".to_string()),
        interface_number: 0,
    }
}

#[test]
fn test_are_serial_numbers_similar() {
    assert!(are_serial_numbers_similar("6507DA00", "7507DA00"));
    assert!(are_serial_numbers_similar("7507DA00", "6507DA00"));

    assert!(are_serial_numbers_similar("1234ABCD", "1234ABCE"));
    assert!(are_serial_numbers_similar("ABCD1234", "BBCD1234"));
    assert!(are_serial_numbers_similar("12345678", "12345679"));

    assert!(!are_serial_numbers_similar("6507DA00", "7507DB00"));
    assert!(!are_serial_numbers_similar("1234ABCD", "1234ABEF"));
    assert!(!are_serial_numbers_similar("ABCD1234", "ABCE1235"));

    assert!(!are_serial_numbers_similar("6507DA00", "6507DA001"));
    assert!(!are_serial_numbers_similar("6507DA0", "6507DA00"));
    assert!(!are_serial_numbers_similar("SHORT", "VERYLONGSERIAL"));

    assert!(!are_serial_numbers_similar("1234567", "1234568"));
    assert!(!are_serial_numbers_similar("SHORT", "SHART"));

    assert!(!are_serial_numbers_similar("6507DA00", "6507DA00"));
    assert!(!are_serial_numbers_similar("IDENTICAL", "IDENTICAL"));

    assert!(!are_serial_numbers_similar("", ""));
    assert!(!are_serial_numbers_similar("6507DA00", ""));
    assert!(!are_serial_numbers_similar("", "6507DA00"));
}

#[test]
fn test_find_similar_serial_key() {
    let mut devices: Vec<(String, XrDeviceInfo)> = Vec::new();

    devices.push(("6507DA00".to_string(), device("6507DA00", "Test Device")));

    assert_eq!(find_similar_serial_key(&devices, "7507DA00"), Some("6507DA00".to_string()));
    assert_eq!(find_similar_serial_key(&devices, "8507DB00"), None);
    assert_eq!(find_similar_serial_key(&devices, "6507DA00"), None);

    devices.push(("ABCD1234".to_string(), device("ABCD1234", "Test Device 2")));

    assert_eq!(find_similar_serial_key(&devices, "7507DA00"), Some("6507DA00".to_string()));
    assert_eq!(find_similar_serial_key(&devices, "ABCD1235"), Some("ABCD1234".to_string()));
}

#[test]
fn serial_similarity_counts_characters_not_bytes() {
    // Equal byte lengths, one differing character of two bytes each.
    assert!(are_serial_numbers_similar("ÄBCDEFGH", "ÖBCDEFGH"));
    // Equal byte lengths but different characters counts: "é" is two bytes.
    assert!(!are_serial_numbers_similar("éABCDEFG", "xxABCDEFG"));
}

#[test]
fn xr22802_interfaces_with_similar_serials_form_one_device() {
    let devices = device_find(vec![
        interface(XR2280X_I2C_PID, Some("6507DA00"), "/dev/hidraw0"),
        interface(XR2280X_EDGE_PID, Some("7507DA00"), "/dev/hidraw1"),
    ]);
    assert_eq!(devices.len(), 1);
    let d = &devices[0];
    assert_eq!(d.serial_number.as_deref(), Some("6507DA00"));
    assert_eq!(d.i2c_interface.as_ref().unwrap().path, b"/dev/hidraw0".to_vec());
    assert_eq!(d.edge_interface.as_ref().unwrap().path, b"/dev/hidraw1".to_vec());
}

#[test]
fn interfaces_with_one_serial_form_one_device() {
    let devices = device_find(vec![
        interface(XR2280X_EDGE_PID, Some("SERIAL0001"), "e"),
        interface(XR2280X_I2C_PID, Some("SERIAL0001"), "i"),
    ]);
    assert_eq!(devices.len(), 1);
    assert!(devices[0].i2c_interface.is_some());
    assert!(devices[0].edge_interface.is_some());
}

#[test]
fn occupied_slot_of_a_similar_serial_makes_a_new_device() {
    let devices = device_find(vec![
        interface(XR2280X_I2C_PID, Some("6507DA00"), "a"),
        interface(XR2280X_I2C_PID, Some("7507DA00"), "b"),
    ]);
    assert_eq!(devices.len(), 2);
    assert_eq!(devices[0].serial_number.as_deref(), Some("6507DA00"));
    assert_eq!(devices[1].serial_number.as_deref(), Some("7507DA00"));
    assert_eq!(devices[1].i2c_interface.as_ref().unwrap().path, b"b".to_vec());
}

#[test]
fn occupied_slot_of_the_same_serial_is_overwritten() {
    let devices = device_find(vec![
        interface(XR2280X_I2C_PID, Some("SERIAL0001"), "first"),
        interface(XR2280X_I2C_PID, Some("SERIAL0001"), "second"),
    ]);
    assert_eq!(devices.len(), 1);
    assert_eq!(devices[0].i2c_interface.as_ref().unwrap().path, b"second".to_vec());
}

#[test]
fn devices_come_sorted_by_serial_then_without_serial() {
    let devices = device_find(vec![
        interface(XR2280X_I2C_PID, None, "n1"),
        interface(XR2280X_I2C_PID, Some("ZZZZ0001"), "z"),
        interface(XR2280X_EDGE_PID, None, "n2"),
        interface(XR2280X_I2C_PID, Some("AAAA0001"), "a"),
        interface(XR2280X_I2C_PID, Some("MMMMMMMMMMMM"), "m"),
    ]);
    let serials: Vec<Option<String>> = devices.iter().map(|d| d.serial_number.clone()).collect();
    assert_eq!(
        serials,
        vec![Some("AAAA0001".to_string()), Some("MMMMMMMMMMMM".to_string()), Some("ZZZZ0001".to_string()), None, None]
    );
    assert_eq!(devices[3].i2c_interface.as_ref().unwrap().path, b"n1".to_vec());
    assert_eq!(devices[4].edge_interface.as_ref().unwrap().path, b"n2".to_vec());
}

#[test]
fn no_interfaces_no_devices() {
    assert!(device_find(Vec::new()).is_empty());
}

#[test]
fn interface_filter_accepts_only_the_two_products_of_exar() {
    assert!(is_xr2280x_interface(0x04E2, 0x1100));
    assert!(is_xr2280x_interface(0x04E2, 0x1200));
    assert!(!is_xr2280x_interface(0x04E2, 0x1300));
    assert!(!is_xr2280x_interface(0x1234, 0x1100));
}

#[test]
fn handle_kind_follows_the_product() {
    assert_eq!(interface_for_product(XR2280X_EDGE_PID), RegisterInterface::Edge);
    assert_eq!(interface_for_product(XR2280X_I2C_PID), RegisterInterface::I2c);
    assert_eq!(interface_for_product(0x9999), RegisterInterface::I2c);
}

#[test]
fn capabilities_depend_on_the_group1_probe() {
    assert_eq!(capabilities_from_probe(true, true).gpio_count, 32);
    assert_eq!(capabilities_from_probe(true, false).gpio_count, 8);
    assert_eq!(capabilities_from_probe(false, true).gpio_count, 8);
    assert_eq!(capabilities_from_probe(false, false).gpio_count, 8);
}

#[test]
fn details_carry_the_strings_and_no_product_id() {
    let d = XrDeviceDetails::new(0x04E2, Some("S1".to_string()), None, Some("Exar".to_string()));
    assert_eq!(d.vendor_id, 0x04E2);
    assert_eq!(d.product_id, 0);
    assert_eq!(d.serial_number.as_deref(), Some("S1"));
    assert!(d.product_string.is_none());
    assert_eq!(d.manufacturer_string.as_deref(), Some("Exar"));
}

#[test]
fn selecting_the_first_device() {
    assert!(matches!(select_first(Vec::new()), Err(Error::DeviceNotFound)));
    let d = select_first(vec![device("A0000001", "x"), device("B0000001", "y")]).unwrap();
    assert_eq!(d.serial_number.as_deref(), Some("A0000001"));
}

#[test]
fn selecting_by_index_out_of_range() {
    match select_by_index(vec![device("A0000001", "x")], 11) {
        Err(Error::DeviceNotFoundByIndex { index, message }) => {
            assert_eq!(index, 11);
            assert_eq!(message, "Index out of range (found 1 devices)");
        }
        other => panic!("unexpected {other:?}"),
    }
    let d = select_by_index(vec![device("A0000001", "x"), device("B0000001", "y")], 1).unwrap();
    assert_eq!(d.serial_number.as_deref(), Some("B0000001"));
}

#[test]
fn selecting_by_serial() {
    let fake_serial = "DEFINITELY_NONEXISTENT_SERIAL_12345";
    match select_by_serial(vec![device("A0000001", "x")], fake_serial) {
        Err(Error::DeviceNotFoundBySerial { serial, message }) => {
            assert_eq!(serial, fake_serial);
            assert_eq!(message, "No XR2280x device found with this serial number");
        }
        other => panic!("unexpected {other:?}"),
    }
    let d = select_by_serial(vec![device("A0000001", "x"), device("B0000001", "y")], "B0000001").unwrap();
    assert_eq!(d.product_string.as_deref(), Some("y"));
}

/// The interfaces an enumeration without hardware finds, and one with an XR22802 attached.
fn enumerations() -> Vec<Vec<InterfaceInfo>> {
    vec![
        Vec::new(),
        vec![
            interface(XR2280X_I2C_PID, Some("6507DA00"), "/dev/hidraw0"),
            interface(XR2280X_EDGE_PID, Some("7507DA00"), "/dev/hidraw1"),
        ],
    ]
}

#[test]
fn test_enumerate_devices_no_panic() {
    for found in enumerations() {
        let devices = device_find(found);
        for device_info in devices.iter() {
            assert_eq!(device_info.vid, EXAR_VID);
            assert!(device_info.i2c_interface.is_some() || device_info.edge_interface.is_some());
        }
    }
}

#[test]
fn test_open_by_index_invalid_indices() {
    for found in enumerations() {
        let devices = device_find(found);
        let invalid_index = devices.len() + 10;
        match select_by_index(devices, invalid_index) {
            Err(Error::DeviceNotFoundByIndex { index, message }) => {
                assert_eq!(index, invalid_index);
                assert!(message.contains("Index out of range"));
            }
            other => panic!("Expected DeviceNotFoundByIndex error, got: {other:?}"),
        }
    }
}

#[test]
fn test_open_by_serial_nonexistent() {
    for found in enumerations() {
        let fake_serial = "DEFINITELY_NONEXISTENT_SERIAL_12345";
        match select_by_serial(device_find(found), fake_serial) {
            Err(Error::DeviceNotFoundBySerial { serial, message }) => {
                assert_eq!(serial, fake_serial);
                assert!(message.contains("No XR2280x device found"));
            }
            other => panic!("Expected DeviceNotFoundBySerial error, got: {other:?}"),
        }
    }
}
