use atk_dpi::discovery::{list_devices, matches_vendor, resolve_ids, DeviceInfo};
use atk_dpi::error::Error;

fn device(vendor_id: u16, product_id: u16) -> DeviceInfo {
    DeviceInfo {
        vendor_id,
        product_id,
        usage_page: 0xff02,
        usage: 2,
        interface_number: 1,
        manufacturer: Some("Compx".to_string()),
        product: Some("VXE NordicMouse 1K Dongle".to_string()),
    }
}

#[test]
fn known_vendors_match() {
    assert!(matches_vendor(0x373b, None));
    assert!(matches_vendor(0x3554, None));
    assert!(!matches_vendor(0x046d, None));
    assert!(matches_vendor(0x046d, Some(0x046d)));
    assert!(!matches_vendor(0x373b, Some(0x046d)));
}

#[test]
fn lists_what_matches_in_order() {
    let mut unnamed = device(0x3554, 0xf58a);
    unnamed.manufacturer = None;
    unnamed.product = None;
    unnamed.interface_number = -1;
    unnamed.usage_page = 1;
    let devices = vec![device(0x046d, 1), unnamed, device(0x373b, 0x1085)];
    assert_eq!(
        list_devices(&devices, None),
        vec![
            "VID=3554 PID=f58a  usage_page=0x0001 usage=0x0002  iface=-1  ? — ?".to_string(),
            "VID=373b PID=1085  usage_page=0xff02 usage=0x0002  iface=1  Compx — VXE NordicMouse 1K Dongle"
                .to_string(),
        ]
    );
    assert_eq!(
        list_devices(&devices, Some(0x046d)),
        vec![
            "VID=046d PID=0001  usage_page=0xff02 usage=0x0002  iface=1  Compx — VXE NordicMouse 1K Dongle"
                .to_string(),
        ]
    );
}

#[test]
fn an_empty_listing_says_what_to_check() {
    let expected = "No ATK/VXE devices found. Check that:\n\
        1) the mouse is connected via cable or 2.4G dongle (Bluetooth often does not allow raw HID access);\n\
        2) on Linux — a udev rule is installed for root-free access\n\
        (see https://gist.github.com/Speyll/b7803161b1ee43f258d484fe9e92c4b4);\n\
        3) the device VID is not in the list [373b, 3554] — find it via\n\
        `lsusb` (Linux) or Device Manager (Windows) and pass --vid explicitly.";
    assert_eq!(list_devices(&vec![device(0x046d, 1)], None), vec![expected.to_string()]);
    assert_eq!(list_devices(&vec![], Some(1)), vec![expected.to_string()]);
}

#[test]
fn given_identifiers_win() {
    let devices = vec![device(0x373b, 0x1085)];
    assert_eq!(resolve_ids(&devices, Some(1), Some(2)).unwrap(), (1, 2));
}

#[test]
fn the_first_device_of_the_vendor_is_taken() {
    let devices = vec![device(0x046d, 1), device(0x3554, 2), device(0x373b, 3), device(0x3554, 4)];
    assert_eq!(resolve_ids(&devices, None, None).unwrap(), (0x3554, 2));
    assert_eq!(resolve_ids(&devices, Some(0x373b), None).unwrap(), (0x373b, 3));
    assert_eq!(resolve_ids(&devices, Some(0x046d), None).unwrap(), (0x046d, 1));
}

#[test]
fn a_product_id_alone_leaves_the_vendor_to_be_detected() {
    let devices = vec![device(0x046d, 3), device(0x3554, 2), device(0x373b, 3), device(0x3554, 3)];
    assert_eq!(resolve_ids(&devices, None, Some(3)).unwrap(), (0x373b, 3));
    assert_eq!(resolve_ids(&devices, None, Some(2)).unwrap(), (0x3554, 2));
    // Neither another product nor an unknown vendor will do.
    assert!(matches!(resolve_ids(&devices, None, Some(4)), Err(Error::NoDevice)));
    assert!(matches!(
        resolve_ids(&vec![device(0x373b, 1)], None, Some(2)),
        Err(Error::NoDevice)
    ));
    assert!(matches!(
        resolve_ids(&vec![device(0x046d, 2)], None, Some(2)),
        Err(Error::NoDevice)
    ));
}

#[test]
fn no_device_is_an_error() {
    let error = resolve_ids(&vec![device(0x046d, 1)], None, None).unwrap_err();
    assert!(matches!(error, Error::NoDevice));
    assert_eq!(
        error.message(),
        "Could not automatically detect the device. Run `atk-dpi list`, find your mouse and pass \
         --vid/--pid explicitly."
    );
    assert!(resolve_ids(&vec![device(0x373b, 1)], Some(0x3554), Some(1)).is_ok());
    assert!(resolve_ids(&vec![device(0x373b, 1)], Some(0x3554), None).is_err());
}
