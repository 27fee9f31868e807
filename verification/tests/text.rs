use bmp_protocol::addr::IpAddress;
use bmp_protocol::text::append_decimal;
use bmp_protocol::text::append_hex;

#[test]
fn numbers_in_decimal() {
    for (n, text) in [(0u32, "0"), (7, "7"), (10, "10"), (255, "255"), (65000, "65000"), (4294967295, "4294967295")] {
        let mut s = String::from("n=");
        append_decimal(&mut s, n);
        assert_eq!(s, format!("n={}", text));
    }
}

#[test]
fn numbers_in_hexadecimal() {
    for (n, text) in [(0u32, "0"), (9, "9"), (10, "a"), (15, "f"), (16, "10"), (0xdb8, "db8"), (0xFFFF, "ffff"), (0xDEADBEEF, "deadbeef")] {
        let mut s = String::new();
        append_hex(&mut s, n);
        assert_eq!(s, text);
    }
}

#[test]
fn addresses_as_text() {
    assert_eq!(IpAddress::V4(0).to_string(), "0.0.0.0");
    assert_eq!(IpAddress::V4(0x0A00_0001).to_string(), "10.0.0.1");
    assert_eq!(IpAddress::V4(0xFFFF_FFFF).to_string(), "255.255.255.255");
    assert_eq!(IpAddress::V4(0xC0A8_0164).to_string(), "192.168.1.100");
    assert_eq!(IpAddress::V6(0).to_string(), "0:0:0:0:0:0:0:0");
    assert_eq!(IpAddress::V6(1).to_string(), "0:0:0:0:0:0:0:1");
    assert_eq!(
        IpAddress::V6(0x2001_0db8_85a3_0000_0000_8a2e_0370_7334).to_string(),
        "2001:db8:85a3:0:0:8a2e:370:7334"
    );
    assert_eq!(
        IpAddress::V6(u128::MAX).to_string(),
        "ffff:ffff:ffff:ffff:ffff:ffff:ffff:ffff"
    );
    let mut s = String::from("peer ");
    IpAddress::V4(0x7F00_0001).append_to(&mut s);
    assert_eq!(s, "peer 127.0.0.1");
}

#[test]
fn keys_of_addresses() {
    assert_eq!(IpAddress::V4(0x0A00_0001).to_key(), (4, 0x0A00_0001));
    assert_eq!(IpAddress::V6(0x0A00_0001).to_key(), (6, 0x0A00_0001));
    assert_eq!(IpAddress::V6(u128::MAX).to_key(), (6, u128::MAX));
}
