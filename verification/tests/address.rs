use ble_copro_stream_server::ble::{BleAddress, BleType};

#[test]
fn tag_zero_is_public() {
    let addr = BleAddress::new([0, 0, 0, 0, 0, 0], 0);
    assert_eq!(addr.ble_type, BleType::Public);
}

#[test]
fn tag_one_is_random() {
    let addr = BleAddress::new([0, 0, 0, 0, 0, 0], 1);
    assert_eq!(addr.ble_type, BleType::Random);
}

#[test]
fn tag_two_is_public_static() {
    let addr = BleAddress::new([0, 0, 0, 0, 0, 0], 2);
    assert_eq!(addr.ble_type, BleType::PublicStatic);
}

#[test]
fn tag_three_is_random_static() {
    let addr = BleAddress::new([0, 0, 0, 0, 0, 0], 3);
    assert_eq!(addr.ble_type, BleType::RandomStatic);
}

#[test]
fn out_of_range_tags_are_unknown() {
    let addr = BleAddress::new([0, 0, 0, 0, 0, 0], 7);
    assert_eq!(addr.ble_type, BleType::Unknown);
    let addr = BleAddress::new([0, 0, 0, 0, 0, 0], 255);
    assert_eq!(addr.ble_type, BleType::Unknown);
    let addr = BleAddress::new([0, 0, 0, 0, 0, 0], 4);
    assert_eq!(addr.ble_type, BleType::Unknown);
}

#[test]
fn mac_bytes_are_kept_in_wire_order() {
    let addr = BleAddress::new([0xa4, 0xc1, 0x38, 0xec, 0x1c, 0x6d], 0);
    assert_eq!(addr.mac, [0xa4, 0xc1, 0x38, 0xec, 0x1c, 0x6d]);
}

#[test]
fn mac_string_is_colon_separated_lowercase_hex() {
    let addr = BleAddress::new([0xa4, 0xc1, 0x38, 0xec, 0x1c, 0x6d], 0);
    assert_eq!(addr.mac_string(), "a4:c1:38:ec:1c:6d");
}

#[test]
fn to_slug_is_compact_hex() {
    let addr = BleAddress::new([0xa4, 0xc1, 0x38, 0xec, 0x1c, 0x6d], 0);
    assert_eq!(addr.to_slug(), "a4c138ec1c6d");
}

#[test]
fn manufacturer_part_is_last_three_bytes() {
    let addr = BleAddress::new([0xa4, 0xc1, 0x38, 0xec, 0x1c, 0x6d], 0);
    assert_eq!(addr.mac_manufacturer_part(), "ec1c6d");
}

#[test]
fn hex_rendering_pads_small_nibbles() {
    let addr = BleAddress::new([0x00, 0x01, 0x0a, 0x10, 0xf0, 0xff], 0);
    assert_eq!(addr.mac_string(), "00:01:0a:10:f0:ff");
    assert_eq!(addr.to_slug(), "00010a10f0ff");
    assert_eq!(addr.mac_manufacturer_part(), "10f0ff");
}

#[test]
fn address_display_names_the_kind() {
    let addr = BleAddress::new([0xaa, 0xbb, 0xcc, 0xdd, 0xee, 0xff], 2);
    assert_eq!(addr.display_string(), "aa:bb:cc:dd:ee:ff (PublicStatic)");
}

#[test]
fn kind_names() {
    assert_eq!(BleType::Public.display_string(), "Public");
    assert_eq!(BleType::Random.display_string(), "Random");
    assert_eq!(BleType::PublicStatic.display_string(), "PublicStatic");
    assert_eq!(BleType::RandomStatic.display_string(), "RandomStatic");
    assert_eq!(BleType::Unknown.display_string(), "Unknown");
}

#[test]
fn kind_tags_are_canonical() {
    assert_eq!(BleType::Public.tag(), 0);
    assert_eq!(BleType::Random.tag(), 1);
    assert_eq!(BleType::PublicStatic.tag(), 2);
    assert_eq!(BleType::RandomStatic.tag(), 3);
    assert_eq!(BleType::Unknown.tag(), 255);
}
