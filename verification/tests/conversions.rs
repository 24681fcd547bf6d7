use in_addr::ipv4::Ipv4Addr;
use in_addr::unix::InAddr;

#[test]
fn integer_round_trip() {
    for v in [0u32, 1, 0x7F, 0x0100007F, 0xDEADBEEF, 0xFFFFFFFF] {
        let a = InAddr::from(v);
        assert_eq!(u32::from(a), v);
    }
}

#[test]
fn native_round_trip() {
    let a = InAddr::from(0x0A00000Bu32);
    let native: libc::in_addr = a.into();
    assert_eq!(native.s_addr, 0x0A00000B);
    let back = InAddr::from(native);
    assert_eq!(u32::from(back), u32::from(a));
}

#[test]
fn native_struct_wraps_unchanged() {
    let native = libc::in_addr { s_addr: 0xC0A80001 };
    let a = InAddr::from(native);
    assert_eq!(u32::from(a), 0xC0A80001);
    let out: libc::in_addr = a.into();
    assert_eq!(out.s_addr, 0xC0A80001);
}

#[test]
fn ipv4_round_trip() {
    for o in [
        Ipv4Addr::new(0, 0, 0, 0),
        Ipv4Addr::new(127, 0, 0, 1),
        Ipv4Addr::new(192, 168, 0, 1),
        Ipv4Addr::new(255, 255, 255, 255),
    ] {
        let a = InAddr::from(o);
        let back = Ipv4Addr::from(a);
        assert_eq!(back, o);
    }
}

#[test]
fn cross_representation_consistency() {
    let a = InAddr::from(0x0100007Fu32);
    let o = Ipv4Addr::from(a);
    assert_eq!(o, Ipv4Addr::new(0x7F, 0x00, 0x00, 0x01));

    let b = InAddr::from(0x44332211u32);
    let p = Ipv4Addr::from(b);
    assert_eq!(p, Ipv4Addr::new(0x11, 0x22, 0x33, 0x44));
}

#[test]
fn new_accepts_every_source() {
    let from_word = InAddr::new(0x0100007Fu32);
    let from_octets = InAddr::new(Ipv4Addr::new(127, 0, 0, 1));
    let from_native = InAddr::new(libc::in_addr { s_addr: 0x0100007F });
    assert_eq!(u32::from(from_word), 0x0100007F);
    assert_eq!(u32::from(from_octets), 0x0100007F);
    assert_eq!(u32::from(from_native), 0x0100007F);
}

#[test]
fn copy_independence() {
    let a = InAddr::new(0x0100007Fu32);
    let mut b = a;
    b = InAddr::new(0xFFFFFFFFu32);
    assert_eq!(u32::from(a), 0x0100007F);
    assert_eq!(u32::from(b), 0xFFFFFFFF);
    assert_eq!(Ipv4Addr::from(a), Ipv4Addr::new(127, 0, 0, 1));
}
