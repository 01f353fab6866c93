use cross_platform_tun::address::{
    parse_ipv4, IntoIpv4Addr, Ipv4AddrExt, Ipv4Address, SockAddr, SockAddrExt, AF_INET,
};
use cross_platform_tun::error::Error;

#[test]
fn number_is_read_most_significant_byte_first() {
    assert_eq!(0xC0A8_3201u32.into_ipv4().unwrap(), Ipv4Address::new(192, 168, 50, 1));
    assert_eq!(0u32.into_ipv4().unwrap(), Ipv4Address::new(0, 0, 0, 0));
    assert_eq!(u32::MAX.into_ipv4().unwrap(), Ipv4Address::new(255, 255, 255, 255));
    assert_eq!(Ipv4Address::from_bits(0x0102_0304), Ipv4Address::new(1, 2, 3, 4));
}

#[test]
fn signed_number_is_read_by_its_bits() {
    assert_eq!((-1i32).into_ipv4().unwrap(), Ipv4Address::new(255, 255, 255, 255));
    assert_eq!(i32::MIN.into_ipv4().unwrap(), Ipv4Address::new(128, 0, 0, 0));
    assert_eq!(0x7f00_0001i32.into_ipv4().unwrap(), Ipv4Address::new(127, 0, 0, 1));
    assert_eq!((-256i32).into_ipv4().unwrap(), Ipv4Address::new(255, 255, 255, 0));
}

#[test]
fn address_stands_for_itself() {
    let a = Ipv4Address::new(10, 0, 0, 1);
    assert_eq!(a.into_ipv4().unwrap(), a);
    assert_eq!(a.octets(), [10, 0, 0, 1]);
}

#[test]
fn text_is_read_as_dotted_quad() {
    assert_eq!("192.168.50.1".into_ipv4().unwrap(), Ipv4Address::new(192, 168, 50, 1));
    assert_eq!("255.255.255.0".into_ipv4().unwrap(), Ipv4Address::new(255, 255, 255, 0));
    assert_eq!("0.0.0.0".into_ipv4().unwrap(), Ipv4Address::new(0, 0, 0, 0));
    assert_eq!("255.255.255.255".into_ipv4().unwrap(), Ipv4Address::new(255, 255, 255, 255));
    assert_eq!("1.20.100.9".to_string().into_ipv4().unwrap(), Ipv4Address::new(1, 20, 100, 9));
    assert_eq!(parse_ipv4(b"10.0.0.255"), Some(Ipv4Address::new(10, 0, 0, 255)));
}

#[test]
fn text_that_is_no_address_is_invalid_address() {
    for text in [
        "", ".", "1", "1.2.3", "1.2.3.", ".1.2.3", "1.2.3.4.", "1.2.3.4.5", "1..2.3", "256.1.1.1",
        "1.2.3.256", "1.2.3.999", "01.2.3.4", "1.2.3.04", "00.0.0.0", "1.2.3.4 ", " 1.2.3.4",
        "a.b.c.d", "1.2.3.x", "1,2,3,4", "+1.2.3.4", "-1.2.3.4", "1.2.3.1000", "0x1.2.3.4",
        "1.2.3.4\n", "\u{661}.2.3.4",
    ] {
        assert!(matches!(text.into_ipv4(), Err(Error::InvalidAddress)), "{text:?}");
        assert!(matches!(text.to_string().into_ipv4(), Err(Error::InvalidAddress)), "{text:?}");
    }
}

#[test]
fn every_octet_value_is_read_back_from_its_text() {
    for v in 0u16..=255 {
        let v = v as u8;
        let text = format!("{v}.0.{v}.255");
        assert_eq!(text.into_ipv4().unwrap(), Ipv4Address::new(v, 0, v, 255));
    }
}

#[test]
fn socket_address_carries_family_and_octets() {
    let a = Ipv4Address::new(192, 168, 50, 1);
    let sock = a.to_sockaddr();
    assert_eq!(sock, SockAddr { family: AF_INET, port: 0, addr: a });
    assert_eq!(AF_INET, 2);
    assert_eq!(Ipv4Address::from_sockaddr(sock), a);
    let back: Ipv4Address = sock.into_ipv4addr();
    assert_eq!(back, a);
}

#[test]
fn socket_address_of_another_family_still_gives_its_octets() {
    let sock = SockAddr { family: 0, port: 7, addr: Ipv4Address::new(1, 2, 3, 4) };
    assert_eq!(Ipv4Address::from_sockaddr(sock), Ipv4Address::new(1, 2, 3, 4));
}
