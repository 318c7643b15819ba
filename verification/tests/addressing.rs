use dmx_rdm::unique_identifier::{PackageAddress, UniqueIdentifier};

#[test]
fn from_bytes_classifies_the_three_address_kinds() {
    assert_eq!(PackageAddress::from_bytes(&vec![0xFF; 6]), PackageAddress::Broadcast);

    assert_eq!(
        PackageAddress::from_bytes(&vec![0x12, 0x34, 0xFF, 0xFF, 0xFF, 0xFF]),
        PackageAddress::ManufacturerBroadcast(0x1234)
    );

    assert_eq!(
        PackageAddress::from_bytes(&vec![0x12, 0x34, 0x56, 0x78, 0x9A, 0xBC]),
        PackageAddress::Device(UniqueIdentifier::new(0x1234, 0x56789ABC).unwrap())
    );

    // An all-ones manufacturer id with a device id below the broadcast
    // value is still a device address.
    assert_eq!(
        PackageAddress::from_bytes(&vec![0xFF, 0xFF, 0x00, 0x00, 0x00, 0x05]),
        PackageAddress::Device(UniqueIdentifier { manufacturer_uid: 0xFFFF, device_uid: 5 })
    );
}

#[test]
fn address_bytes_round_trip() {
    let addresses = [
        PackageAddress::Broadcast,
        PackageAddress::ManufacturerBroadcast(0x0001),
        PackageAddress::Device(UniqueIdentifier::new(0x1234, 0x56789ABC).unwrap()),
    ];
    for address in addresses {
        assert_eq!(PackageAddress::from_bytes(&address.to_bytes()), address);
    }
}

#[test]
fn uid_value_round_trips_through_u64() {
    let uid = UniqueIdentifier::new(0x1234, 0x56789ABC).unwrap();
    assert_eq!(uid.to_u64(), 0x1234_5678_9ABC);
    assert_eq!(UniqueIdentifier::from_u64(0x1234_5678_9ABC).unwrap(), uid);

    assert_eq!(
        PackageAddress::from_u64(0xFFFF_FFFF_FFFF).unwrap(),
        PackageAddress::Broadcast
    );
    assert_eq!(
        PackageAddress::from_u64(0x0042_FFFF_FFFF).unwrap(),
        PackageAddress::ManufacturerBroadcast(0x0042)
    );
    assert_eq!(
        PackageAddress::from_u64(0x1234_5678_9ABC).unwrap(),
        PackageAddress::Device(uid)
    );
    PackageAddress::from_u64(0x1_0000_0000_0000).unwrap_err();
}

#[test]
fn uid_constructor_rejects_broadcast_halves() {
    UniqueIdentifier::new(0xFFFF, 0).unwrap_err();
    UniqueIdentifier::new(0, 0xFFFF_FFFF).unwrap_err();

    let mut uid = UniqueIdentifier::new(1, 2).unwrap();
    uid.set_manufacturer_uid(0xFFFF).unwrap_err();
    uid.set_device_uid(0xFFFF_FFFF).unwrap_err();
    uid.set_manufacturer_uid(0x7FF0).unwrap();
    uid.set_device_uid(9).unwrap();
    assert_eq!(uid.manufacturer_uid(), 0x7FF0);
    assert_eq!(uid.device_uid(), 9);
}

#[test]
fn is_broadcast_covers_both_broadcast_kinds() {
    assert!(PackageAddress::Broadcast.is_broadcast());
    assert!(PackageAddress::ManufacturerBroadcast(7).is_broadcast());
    assert!(!PackageAddress::Device(UniqueIdentifier::new(1, 1).unwrap()).is_broadcast());
}
