use in_addr::ipv4::Ipv4Addr;
use in_addr::unix::InAddr;

#[test]
fn format_text_loopback() {
    let a = InAddr::from(0x0100007Fu32);
    assert_eq!(a.format_text(), "127.0.0.1");
}

#[test]
fn format_text_bounds() {
    assert_eq!(InAddr::from(0u32).format_text(), "0.0.0.0");
    assert_eq!(InAddr::from(0xFFFFFFFFu32).format_text(), "255.255.255.255");
}

#[test]
fn format_text_keeps_byte_order() {
    assert_eq!(InAddr::from(0x44332211u32).format_text(), "17.34.51.68");
}

#[test]
fn ipv4_text_digit_widths() {
    assert_eq!(Ipv4Addr::new(1, 23, 145, 0).to_text(), "1.23.145.0");
    assert_eq!(Ipv4Addr::new(9, 10, 99, 100).to_text(), "9.10.99.100");
    assert_eq!(Ipv4Addr::new(200, 255, 128, 101).to_text(), "200.255.128.101");
}

#[test]
fn format_text_goes_through_ipv4() {
    let a = InAddr::from(Ipv4Addr::new(10, 0, 0, 7));
    assert_eq!(a.format_text(), Ipv4Addr::from(a).to_text());
    assert_eq!(a.format_text(), "10.0.0.7");
}
