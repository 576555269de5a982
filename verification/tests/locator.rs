use logi_switch::error::Error;
use logi_switch::locator::{locate, locate_interface, DeviceIdentity};

fn receiver() -> DeviceIdentity {
    DeviceIdentity { vendor_id: 0x046D, product_id: 0xC548, usage: 0x0001, usage_page: 0xFF00 }
}

#[test]
fn receiver_identity_is_fixed() {
    let id = DeviceIdentity::receiver();
    assert_eq!(id.vendor_id, 0x046D);
    assert_eq!(id.product_id, 0xC548);
    assert_eq!(id.usage, 0x0001);
    assert_eq!(id.usage_page, 0xFF00);
}

#[test]
fn locate_finds_nothing_in_an_empty_list() {
    let interfaces: Vec<DeviceIdentity> = Vec::new();
    assert_eq!(locate(&interfaces), Err(Error::DeviceNotFound));
}

#[test]
fn locate_finds_the_receiver() {
    let interfaces = vec![
        DeviceIdentity { vendor_id: 0x1234, product_id: 0x0001, usage: 6, usage_page: 1 },
        receiver(),
    ];
    assert_eq!(locate(&interfaces), Ok(1));
}

#[test]
fn locate_takes_the_first_of_two_matches() {
    let interfaces = vec![
        DeviceIdentity { vendor_id: 0x1234, product_id: 0x0001, usage: 6, usage_page: 1 },
        receiver(),
        DeviceIdentity { vendor_id: 0x046D, product_id: 0xC548, usage: 0x0002, usage_page: 0xFF00 },
        receiver(),
    ];
    assert_eq!(locate(&interfaces), Ok(1));
}

#[test]
fn locate_wants_all_four_numbers_to_agree() {
    let r = receiver();
    let interfaces = vec![
        DeviceIdentity { vendor_id: 0x046E, ..r },
        DeviceIdentity { product_id: 0xC547, ..r },
        DeviceIdentity { usage: 0x0002, ..r },
        DeviceIdentity { usage_page: 0xFF01, ..r },
        DeviceIdentity { usage: 0xFF00, usage_page: 0x0001, ..r },
    ];
    assert_eq!(locate(&interfaces), Err(Error::DeviceNotFound));
}

#[test]
fn locate_interface_looks_for_what_it_is_given() {
    let wanted = DeviceIdentity { vendor_id: 1, product_id: 2, usage: 3, usage_page: 4 };
    let interfaces = vec![receiver(), wanted, wanted];
    assert_eq!(locate_interface(&interfaces, &wanted), Ok(1));
    assert_eq!(locate_interface(&interfaces, &receiver()), Ok(0));
    let other = DeviceIdentity { vendor_id: 4, product_id: 3, usage: 2, usage_page: 1 };
    assert_eq!(locate_interface(&interfaces, &other), Err(Error::DeviceNotFound));
}

#[test]
fn matches_is_equality() {
    let r = receiver();
    assert!(r.matches(&DeviceIdentity::receiver()));
    assert!(!r.matches(&DeviceIdentity { usage: 2, ..r }));
}
